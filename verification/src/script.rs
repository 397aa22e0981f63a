//! Parsing of the WebAssembly script format: a script's commands, decoded
//! one at a time from their intermediate form.

use vstd::prelude::*;
use crate::binary::ModuleBinary;
use crate::binary::ModuleStore;
use crate::bits::{canonicalize_f32_bits, canonicalize_f64_bits, quiet_f32, quiet_f64};
use crate::bits::{signed_32, signed_64, to_signed_32, to_signed_64};
use crate::bits::{to_unsigned_32, to_unsigned_64, unsigned_32, unsigned_64};
use crate::decimal::{decimal_digits, decimal_text, decimal_value, parse_decimal};
use crate::error::kind_description;
use crate::json;
use crate::convert::{compile_script, script_steps, Conversion};
use crate::text::{decoded_field, ends_with, has_suffix, jstring_to_rstring, same_text};
use vstd::string::StringExecFns;

verus! {

/// Why a number of the intermediate form could not be decoded.
#[derive(Debug, PartialEq, Eq)]
pub enum ValueDecodeError {
    /// The text is not an unsigned decimal number of the width its type asks
    /// for.
    ValueParse { text: String, tag: String },
    /// The type tag is none of `i32`, `i64`, `f32`, `f64`.
    UnknownValueType { tag: String },
}

/// What a [`ValueDecodeError`] holds, as mathematical text.
pub enum ValueDecodeErrorView {
    ValueParse { text: Seq<char>, tag: Seq<char> },
    UnknownValueType { tag: Seq<char> },
}

impl View for ValueDecodeError {
    type V = ValueDecodeErrorView;

    open spec fn view(&self) -> ValueDecodeErrorView {
        match *self {
            ValueDecodeError::ValueParse { text, tag } => ValueDecodeErrorView::ValueParse {
                text: text@,
                tag: tag@,
            },
            ValueDecodeError::UnknownValueType { tag } => {
                ValueDecodeErrorView::UnknownValueType { tag: tag@ }
            },
        }
    }
}

/// Error that can happen when parsing a script.
#[derive(Debug, PartialEq, Eq)]
pub enum Error {
    /// IO error happened during parsing or preparing to parse.
    IoError(String),
    /// The script compiler reported an error while converting the script.
    WabtError(crate::error::Error),
    /// The intermediate form breaks what the script compiler promises of
    /// it; the text is the offending fragment.
    MalformedIntermediateForm(String),
    /// A number of the intermediate form could not be decoded.
    ValueDecode(ValueDecodeError),
    /// Other error represented by String.
    Other(String),
    /// Not a different kind of an error but just a wrapper for a error
    /// which we have a line number information.
    WithLineInfo {
        /// Line number of the script on which just error happen.
        line: u64,
        /// Box with actual error.
        error: Box<Error>,
    },
}

/// What an [`Error`] holds, as mathematical text.
pub enum ErrorView {
    IoError(Seq<char>),
    WabtError(crate::error::ErrorKindView),
    MalformedIntermediateForm(Seq<char>),
    ValueDecode(ValueDecodeErrorView),
    Other(Seq<char>),
    WithLineInfo { line: u64, error: Box<ErrorView> },
}

impl View for Error {
    type V = ErrorView;

    open spec fn view(&self) -> ErrorView
        decreases self,
    {
        match *self {
            Error::IoError(msg) => ErrorView::IoError(msg@),
            Error::WabtError(e) => ErrorView::WabtError(e@),
            Error::MalformedIntermediateForm(fragment) => ErrorView::MalformedIntermediateForm(
                fragment@,
            ),
            Error::ValueDecode(e) => ErrorView::ValueDecode(e@),
            Error::Other(msg) => ErrorView::Other(msg@),
            Error::WithLineInfo { line, error } => ErrorView::WithLineInfo {
                line,
                error: Box::new((*error)@),
            },
        }
    }
}

impl ErrorView {
    /// The error underneath any line information.
    pub open spec fn root(self) -> ErrorView
        decreases self,
    {
        match self {
            ErrorView::WithLineInfo { error, .. } => error.root(),
            _ => self,
        }
    }
}

/// What a [`ValueDecodeError`] says.
pub open spec fn decode_error_message(e: ValueDecodeErrorView) -> Seq<char> {
    match e {
        ValueDecodeErrorView::ValueParse { text, tag } => "can't parse '"@ + text + "' as '"@ + tag
            + "'"@,
        ValueDecodeErrorView::UnknownValueType { tag } => "Unknown type '"@ + tag + "'"@,
    }
}

/// What an [`Error`] says: its own message, behind the line it occurred
/// on where it has one.
pub open spec fn error_message(e: ErrorView) -> Seq<char>
    decreases e,
{
    match e {
        ErrorView::IoError(msg) => "IO error: "@ + msg,
        ErrorView::WabtError(inner) => "wabt error: "@ + kind_description(inner),
        ErrorView::MalformedIntermediateForm(fragment) => "malformed intermediate form: "@
            + fragment,
        ErrorView::ValueDecode(inner) => decode_error_message(inner),
        ErrorView::Other(msg) => msg,
        ErrorView::WithLineInfo { line, error } => "At line "@ + decimal_digits(line as nat) + ": "@
            + error_message(*error),
    }
}

impl ValueDecodeError {
    /// The error as a line of text.
    pub fn message(&self) -> (r: String)
        ensures
            r@ == decode_error_message(self@),
    {
        match self {
            ValueDecodeError::ValueParse { text, tag } => {
                let mut message = String::from_str("can't parse '");
                message.append(text.as_str());
                message.append("' as '");
                message.append(tag.as_str());
                message.append("'");
                message
            },
            ValueDecodeError::UnknownValueType { tag } => {
                let mut message = String::from_str("Unknown type '");
                message.append(tag.as_str());
                message.append("'");
                message
            },
        }
    }
}

impl From<crate::error::Error> for Error {
    fn from(e: crate::error::Error) -> (r: Error) {
        Error::WabtError(e)
    }
}

impl vstd::std_specs::convert::FromSpecImpl<crate::error::Error> for Error {
    open spec fn obeys_from_spec() -> bool {
        true
    }

    open spec fn from_spec(e: crate::error::Error) -> Error {
        Error::WabtError(e)
    }
}

impl Error {
    /// The error underneath any line information: the kind of failure
    /// that occurred, whatever command it occurred in.
    pub fn root(&self) -> (r: &Error)
        ensures
            r@ == self@.root(),
            !(r is WithLineInfo),
        decreases self,
    {
        match self {
            Error::WithLineInfo { line: _, error } => error.root(),
            _ => self,
        }
    }

    /// The error as a line of text.
    pub fn message(&self) -> (r: String)
        ensures
            r@ == error_message(self@),
        decreases self,
    {
        match self {
            Error::IoError(msg) => {
                let mut message = String::from_str("IO error: ");
                message.append(msg.as_str());
                message
            },
            Error::WabtError(inner) => {
                let mut message = String::from_str("wabt error: ");
                message.append(inner.description());
                message
            },
            Error::MalformedIntermediateForm(fragment) => {
                let mut message = String::from_str("malformed intermediate form: ");
                message.append(fragment.as_str());
                message
            },
            Error::ValueDecode(inner) => inner.message(),
            Error::Other(msg) => msg.clone(),
            Error::WithLineInfo { line, error } => {
                let mut message = String::from_str("At line ");
                message.append(decimal_text(*line).as_str());
                message.append(": ");
                message.append(error.message().as_str());
                message
            },
        }
    }
}

/// Bitwise conversion from T
pub trait FromBits<T>: Sized {
    /// The value that stands for the bit pattern `other`.
    spec fn of_bits(other: T) -> Self;

    /// Convert `other` to `Self`, preserving bitwise representation
    fn from_bits(other: T) -> (r: Self)
        ensures
            r == Self::of_bits(other),
    ;
}

impl<T> FromBits<T> for T {
    open spec fn of_bits(other: T) -> T {
        other
    }

    fn from_bits(other: T) -> (r: T) {
        other
    }
}

/// A 32-bit float as a native float can hold it: its bit pattern, with a
/// signaling NaN replaced by the quiet NaN next to it.
#[derive(Copy, Clone, Debug, PartialEq, Eq)]
pub struct QuietF32 {
    bits: u32,
}

/// A 64-bit float as a native float can hold it: its bit pattern, with a
/// signaling NaN replaced by the quiet NaN next to it.
#[derive(Copy, Clone, Debug, PartialEq, Eq)]
pub struct QuietF64 {
    bits: u64,
}

impl View for QuietF32 {
    type V = u32;

    closed spec fn view(&self) -> u32 {
        self.bits
    }
}

impl View for QuietF64 {
    type V = u64;

    closed spec fn view(&self) -> u64 {
        self.bits
    }
}

impl QuietF32 {
    #[verifier::type_invariant]
    spec fn is_quiet(self) -> bool {
        quiet_f32(self.bits) == self.bits
    }

    /// The quieted pattern of `bits`.
    pub closed spec fn quieted(bits: u32) -> QuietF32 {
        QuietF32 { bits: quiet_f32(bits) }
    }

    /// The bit pattern held. It is never a signaling NaN, so handing it to
    /// a native float loses nothing.
    pub fn to_bits(self) -> (r: u32)
        ensures
            r == self@,
            quiet_f32(r) == r,
    {
        proof {
            use_type_invariant(self);
        }
        self.bits
    }
}

impl QuietF64 {
    #[verifier::type_invariant]
    spec fn is_quiet(self) -> bool {
        quiet_f64(self.bits) == self.bits
    }

    /// The quieted pattern of `bits`.
    pub closed spec fn quieted(bits: u64) -> QuietF64 {
        QuietF64 { bits: quiet_f64(bits) }
    }

    /// The bit pattern held. It is never a signaling NaN, so handing it to
    /// a native float loses nothing.
    pub fn to_bits(self) -> (r: u64)
        ensures
            r == self@,
            quiet_f64(r) == r,
    {
        proof {
            use_type_invariant(self);
        }
        self.bits
    }
}

impl FromBits<u32> for QuietF32 {
    open spec fn of_bits(other: u32) -> QuietF32 {
        QuietF32::quieted(other)
    }

    fn from_bits(other: u32) -> (r: QuietF32) {
        proof {
            crate::bits::lemma_quiet_f32_idempotent(other);
        }
        QuietF32 { bits: canonicalize_f32_bits(other) }
    }
}

impl FromBits<u64> for QuietF64 {
    open spec fn of_bits(other: u64) -> QuietF64 {
        QuietF64::quieted(other)
    }

    fn from_bits(other: u64) -> (r: QuietF64) {
        proof {
            crate::bits::lemma_quiet_f64_idempotent(other);
        }
        QuietF64 { bits: canonicalize_f64_bits(other) }
    }
}

/// The pattern a quieted 32-bit float holds is the quieted input, and
/// quieting it again changes nothing.
pub proof fn lemma_quiet_f32_view(bits: u32)
    ensures
        QuietF32::of_bits(bits)@ == quiet_f32(bits),
        QuietF32::of_bits(QuietF32::of_bits(bits)@) == QuietF32::of_bits(bits),
{
    crate::bits::lemma_quiet_f32_idempotent(bits);
}

/// The pattern a quieted 64-bit float holds is the quieted input, and
/// quieting it again changes nothing.
pub proof fn lemma_quiet_f64_view(bits: u64)
    ensures
        QuietF64::of_bits(bits)@ == quiet_f64(bits),
        QuietF64::of_bits(QuietF64::of_bits(bits)@) == QuietF64::of_bits(bits),
{
    crate::bits::lemma_quiet_f64_idempotent(bits);
}

/// Wasm value
#[derive(Copy, Clone, Debug, PartialEq, PartialOrd)]
pub enum Value<F32 = u32, F64 = u64> {
    /// 32-bit signed or unsigned integer.
    I32(i32),
    /// 64-bit signed or unsigned integer.
    I64(i64),
    /// 32-bit floating point number.
    F32(F32),
    /// 64-bit floating point number.
    F64(F64),
}

impl Value<u32, u64> {
    /// The bit pattern of a value whose floats are held as raw bits.
    pub open spec fn bits(self) -> nat {
        match self {
            Value::I32(v) => unsigned_32(v) as nat,
            Value::I64(v) => unsigned_64(v) as nat,
            Value::F32(bits) => bits as nat,
            Value::F64(bits) => bits as nat,
        }
    }

    /// The bit pattern of the value, widened to 64 bits.
    pub fn to_bits(&self) -> (r: u64)
        ensures
            r as nat == self.bits(),
    {
        match self {
            Value::I32(v) => to_unsigned_32(*v) as u64,
            Value::I64(v) => to_unsigned_64(*v),
            Value::F32(bits) => *bits as u64,
            Value::F64(bits) => *bits,
        }
    }
}

/// The four types a value can have.
#[derive(Copy, Clone, Debug, PartialEq, Eq)]
pub enum ValueType {
    I32,
    I64,
    F32,
    F64,
}

impl ValueType {
    /// The largest bit pattern of the type, as a number.
    pub open spec fn max_bits(self) -> nat {
        match self {
            ValueType::I32 | ValueType::F32 => 0xffff_ffff,
            ValueType::I64 | ValueType::F64 => 0xffff_ffff_ffff_ffff,
        }
    }
}

/// The type that a tag of the intermediate form names, if it names one.
pub open spec fn tag_type(tag: Seq<char>) -> Option<ValueType> {
    if tag == seq!['i', '3', '2'] {
        Some(ValueType::I32)
    } else if tag == seq!['i', '6', '4'] {
        Some(ValueType::I64)
    } else if tag == seq!['f', '3', '2'] {
        Some(ValueType::F32)
    } else if tag == seq!['f', '6', '4'] {
        Some(ValueType::F64)
    } else {
        None
    }
}

/// The value of type `ty` with the bit pattern `bits`.
pub open spec fn value_of_bits<F32: FromBits<u32>, F64: FromBits<u64>>(
    ty: ValueType,
    bits: nat,
) -> Value<F32, F64> {
    match ty {
        ValueType::I32 => Value::I32(signed_32(bits as u32)),
        ValueType::I64 => Value::I64(signed_64(bits as u64)),
        ValueType::F32 => Value::F32(F32::of_bits(bits as u32)),
        ValueType::F64 => Value::F64(F64::of_bits(bits as u64)),
    }
}

/// What a number of the intermediate form decodes to.
///
/// The tag picks the type; the text must then be an unsigned decimal
/// number that fits the type's width, and is taken as the value's bit
/// pattern.
pub open spec fn decoded_value<F32: FromBits<u32>, F64: FromBits<u64>>(
    v: json::RuntimeValueView,
) -> Result<Value<F32, F64>, ValueDecodeErrorView> {
    match tag_type(v.value_type) {
        None => Err(ValueDecodeErrorView::UnknownValueType { tag: v.value_type }),
        Some(ty) => match decimal_value(v.value, ty.max_bits()) {
            None => Err(ValueDecodeErrorView::ValueParse { text: v.value, tag: v.value_type }),
            Some(bits) => Ok(value_of_bits(ty, bits)),
        },
    }
}

/// With floats held as raw bits, decoding loses nothing: every number whose
/// tag names a type and whose text is a decimal bit pattern of that type's
/// width decodes, and the bit pattern of the decoded value is the number the
/// text denotes.
pub proof fn lemma_raw_bits_round_trip(v: json::RuntimeValueView)
    requires
        tag_type(v.value_type) is Some,
        decimal_value(v.value, tag_type(v.value_type)->Some_0.max_bits()) is Some,
    ensures
        decoded_value::<u32, u64>(v) is Ok,
        decoded_value::<u32, u64>(v)->Ok_0.bits() == decimal_value(
            v.value,
            tag_type(v.value_type)->Some_0.max_bits(),
        )->Some_0,
{
}

/// Reads a type tag of the intermediate form.
pub fn parse_tag(tag: &str) -> (r: Option<ValueType>)
    ensures
        r == tag_type(tag@),
{
    proof {
        reveal_strlit("i32");
        reveal_strlit("i64");
        reveal_strlit("f32");
        reveal_strlit("f64");
        assert("i32"@ =~= seq!['i', '3', '2']);
        assert("i64"@ =~= seq!['i', '6', '4']);
        assert("f32"@ =~= seq!['f', '3', '2']);
        assert("f64"@ =~= seq!['f', '6', '4']);
    }
    if same_text(tag, "i32") {
        Some(ValueType::I32)
    } else if same_text(tag, "i64") {
        Some(ValueType::I64)
    } else if same_text(tag, "f32") {
        Some(ValueType::F32)
    } else if same_text(tag, "f64") {
        Some(ValueType::F64)
    } else {
        None
    }
}

/// Decodes one number of the intermediate form.
pub fn parse_value<F32: FromBits<u32>, F64: FromBits<u64>>(test_val: &json::RuntimeValue) -> (r:
    Result<Value<F32, F64>, ValueDecodeError>)
    ensures
        match decoded_value::<F32, F64>(test_val@) {
            Ok(v) => r == Ok::<Value<F32, F64>, ValueDecodeError>(v),
            Err(e) => r is Err && r->Err_0@ == e,
        },
{
    let ty = match parse_tag(test_val.value_type.as_str()) {
        Some(ty) => ty,
        None => {
            return Err(
                ValueDecodeError::UnknownValueType { tag: test_val.value_type.clone() },
            );
        },
    };
    let max: u64 = match ty {
        ValueType::I32 | ValueType::F32 => 0xffff_ffff,
        ValueType::I64 | ValueType::F64 => 0xffff_ffff_ffff_ffff,
    };
    let bits: u64 = match parse_decimal(test_val.value.as_str(), max) {
        Some(bits) => bits,
        None => {
            return Err(
                ValueDecodeError::ValueParse {
                    text: test_val.value.clone(),
                    tag: test_val.value_type.clone(),
                },
            );
        },
    };
    let value = match ty {
        ValueType::I32 => Value::I32(to_signed_32(bits as u32)),
        ValueType::I64 => Value::I64(to_signed_64(bits)),
        ValueType::F32 => Value::F32(F32::from_bits(bits as u32)),
        ValueType::F64 => Value::F64(F64::from_bits(bits)),
    };
    Ok(value)
}

/// What a list of numbers decodes to: the decoded values in order, or the
/// error of the first number that does not decode.
pub open spec fn decoded_values<F32: FromBits<u32>, F64: FromBits<u64>>(
    vals: Seq<json::RuntimeValueView>,
) -> Result<Seq<Value<F32, F64>>, ValueDecodeErrorView>
    decreases vals.len(),
{
    if vals.len() == 0 {
        Ok(Seq::empty())
    } else {
        match decoded_values::<F32, F64>(vals.drop_last()) {
            Err(e) => Err(e),
            Ok(init) => match decoded_value::<F32, F64>(vals.last()) {
                Err(e) => Err(e),
                Ok(v) => Ok(init.push(v)),
            },
        }
    }
}

/// Decoding keeps the length of a list and decodes it element by element.
pub proof fn lemma_decoded_values_elements<F32: FromBits<u32>, F64: FromBits<u64>>(
    vals: Seq<json::RuntimeValueView>,
)
    ensures
        decoded_values::<F32, F64>(vals) matches Ok(out) ==> {
            &&& out.len() == vals.len()
            &&& forall|i: int|
                0 <= i < vals.len() ==> decoded_value::<F32, F64>(#[trigger] vals[i]) == Ok::<
                    Value<F32, F64>,
                    ValueDecodeErrorView,
                >(out[i])
        },
        decoded_values::<F32, F64>(vals) is Ok <==> forall|i: int|
            0 <= i < vals.len() ==> decoded_value::<F32, F64>(#[trigger] vals[i]) is Ok,
    decreases vals.len(),
{
    if vals.len() > 0 {
        lemma_decoded_values_elements::<F32, F64>(vals.drop_last());
        if decoded_values::<F32, F64>(vals) is Ok {
            assert forall|i: int| 0 <= i < vals.len() implies decoded_value::<F32, F64>(
                #[trigger] vals[i],
            ) is Ok by {
                if i < vals.len() - 1 {
                    assert(vals.drop_last()[i] == vals[i]);
                }
            }
            let out = decoded_values::<F32, F64>(vals)->Ok_0;
            assert forall|i: int| 0 <= i < vals.len() implies decoded_value::<F32, F64>(
                #[trigger] vals[i],
            ) == Ok::<Value<F32, F64>, ValueDecodeErrorView>(out[i]) by {
                if i < vals.len() - 1 {
                    assert(vals.drop_last()[i] == vals[i]);
                }
            }
        } else {
            if decoded_values::<F32, F64>(vals.drop_last()) is Err {
                let i = choose|i: int|
                    0 <= i < vals.len() - 1 && !(decoded_value::<F32, F64>(
                        #[trigger] vals.drop_last()[i],
                    ) is Ok);
                assert(vals[i] == vals.drop_last()[i]);
            } else {
                assert(decoded_value::<F32, F64>(vals[vals.len() - 1]) is Err);
            }
        }
    }
}

/// Decodes a list of numbers of the intermediate form, in order, and stops
/// at the first that does not decode.
pub fn parse_value_list<F32: FromBits<u32>, F64: FromBits<u64>>(
    test_vals: &Vec<json::RuntimeValue>,
) -> (r: Result<Vec<Value<F32, F64>>, ValueDecodeError>)
    ensures
        match decoded_values::<F32, F64>(json::values_view(test_vals@)) {
            Ok(vals) => r is Ok && r->Ok_0@ == vals,
            Err(e) => r is Err && r->Err_0@ == e,
        },
{
    let ghost all = json::values_view(test_vals@);
    let mut out: Vec<Value<F32, F64>> = Vec::new();
    let mut i: usize = 0;
    while i < test_vals.len()
        invariant
            i <= test_vals.len(),
            all == json::values_view(test_vals@),
            decoded_values::<F32, F64>(all.subrange(0, i as int)) == Ok::<
                Seq<Value<F32, F64>>,
                ValueDecodeErrorView,
            >(out@),
        decreases test_vals.len() - i,
    {
        let ghost prefix = all.subrange(0, i + 1);
        proof {
            assert(prefix.drop_last() =~= all.subrange(0, i as int));
            assert(prefix.last() == test_vals@[i as int]@);
        }
        match parse_value::<F32, F64>(&test_vals[i]) {
            Ok(v) => {
                out.push(v);
            },
            Err(e) => {
                proof {
                    lemma_decoded_values_prefix_err::<F32, F64>(all, i + 1);
                }
                return Err(e);
            },
        }
        i = i + 1;
    }
    assert(all.subrange(0, i as int) =~= all);
    Ok(out)
}

/// Once a prefix of a list fails to decode, the whole list fails with the
/// same error.
pub proof fn lemma_decoded_values_prefix_err<F32: FromBits<u32>, F64: FromBits<u64>>(
    vals: Seq<json::RuntimeValueView>,
    k: int,
)
    requires
        0 <= k <= vals.len(),
        decoded_values::<F32, F64>(vals.subrange(0, k)) is Err,
    ensures
        decoded_values::<F32, F64>(vals) == decoded_values::<F32, F64>(vals.subrange(0, k)),
    decreases vals.len() - k,
{
    if k == vals.len() {
        assert(vals.subrange(0, k) =~= vals);
    } else {
        assert(vals.subrange(0, k + 1).drop_last() =~= vals.subrange(0, k));
        lemma_decoded_values_prefix_err::<F32, F64>(vals, k + 1);
    }
}

/// Description of action that should be performed on a wasm module.
#[derive(Clone, Debug, PartialEq, PartialOrd)]
pub enum Action<F32 = u32, F64 = u64> {
    /// Invoke a specified function.
    Invoke {
        /// Name of the module. If `None`, last defined module should be
        /// used.
        module: Option<String>,
        /// Field name on which action should be performed.
        field: String,
        /// Arguments that should be passed to the invoked function.
        args: Vec<Value<F32, F64>>,
    },
    /// Read the specified global variable.
    Get {
        /// Name of the module. If `None`, last defined module should be
        /// used.
        module: Option<String>,
        /// Field name on which action should be performed.
        field: String,
    },
}

/// What an [`Action`] holds, as mathematical text and sequences.
pub enum ActionView<F32, F64> {
    Invoke { module: Option<Seq<char>>, field: Seq<char>, args: Seq<Value<F32, F64>> },
    Get { module: Option<Seq<char>>, field: Seq<char> },
}

impl<F32, F64> View for Action<F32, F64> {
    type V = ActionView<F32, F64>;

    open spec fn view(&self) -> ActionView<F32, F64> {
        match *self {
            Action::Invoke { module, field, args } => ActionView::Invoke {
                module: json::opt_text(module),
                field: field@,
                args: args@,
            },
            Action::Get { module, field } => ActionView::Get {
                module: json::opt_text(module),
                field: field@,
            },
        }
    }
}

/// What an action of the intermediate form decodes to.
///
/// The module name is kept as it is, the field name is decoded, and the
/// arguments of an invocation are decoded in order. A field name that does
/// not decode makes the intermediate form malformed, and is reported before
/// any argument is looked at.
pub open spec fn decoded_action<F32: FromBits<u32>, F64: FromBits<u64>>(
    a: json::ActionView,
) -> Result<ActionView<F32, F64>, ErrorView> {
    match a {
        json::ActionView::Invoke { module, field, args } => match decoded_field(field) {
            None => Err(ErrorView::MalformedIntermediateForm(field)),
            Some(name) => match decoded_values::<F32, F64>(args) {
                Err(e) => Err(ErrorView::ValueDecode(e)),
                Ok(vals) => Ok(ActionView::Invoke { module, field: name, args: vals }),
            },
        },
        json::ActionView::Get { module, field } => match decoded_field(field) {
            None => Err(ErrorView::MalformedIntermediateForm(field)),
            Some(name) => Ok(ActionView::Get { module, field: name }),
        },
    }
}

/// A copy of an optional string.
pub fn clone_name(name: &Option<String>) -> (r: Option<String>)
    ensures
        json::opt_text(r) == json::opt_text(*name),
{
    match name {
        Some(text) => Some(text.clone()),
        None => None,
    }
}

/// Decodes an action of the intermediate form.
pub fn parse_action<F32: FromBits<u32>, F64: FromBits<u64>>(test_action: &json::Action) -> (r:
    Result<Action<F32, F64>, Error>)
    ensures
        match decoded_action::<F32, F64>(test_action@) {
            Ok(a) => r is Ok && r->Ok_0@ == a,
            Err(e) => r is Err && r->Err_0@ == e,
        },
{
    match test_action {
        json::Action::Invoke { module, field, args } => {
            let name = match jstring_to_rstring(field.as_str()) {
                Some(name) => name,
                None => {
                    return Err(Error::MalformedIntermediateForm(field.clone()));
                },
            };
            let vals = match parse_value_list::<F32, F64>(args) {
                Ok(vals) => vals,
                Err(e) => {
                    return Err(Error::ValueDecode(e));
                },
            };
            Ok(Action::Invoke { module: clone_name(module), field: name, args: vals })
        },
        json::Action::Get { module, field } => {
            let name = match jstring_to_rstring(field.as_str()) {
                Some(name) => name,
                None => {
                    return Err(Error::MalformedIntermediateForm(field.clone()));
                },
            };
            Ok(Action::Get { module: clone_name(module), field: name })
        },
    }
}

/// Script's command.
#[derive(Clone, Debug, PartialEq)]
pub enum CommandKind<F32 = u32, F64 = u64> {
    /// Define, validate and instantiate a module.
    Module {
        /// Wasm module binary to define, validate and instantiate.
        module: ModuleBinary,
        /// If the `name` is specified, the module should be registered under this name.
        name: Option<String>,
    },
    /// Assert that specified action should yield specified results.
    AssertReturn {
        /// Action to perform.
        action: Action<F32, F64>,
        /// Values that expected to be yielded by the action.
        expected: Vec<Value<F32, F64>>,
    },
    /// Assert that specified action should yield NaN in canonical form.
    AssertReturnCanonicalNan {
        /// Action to perform.
        action: Action<F32, F64>,
    },
    /// Assert that specified action should yield NaN with 1 in MSB of fraction field.
    AssertReturnArithmeticNan {
        /// Action to perform.
        action: Action<F32, F64>,
    },
    /// Assert that performing specified action must yield in a trap.
    AssertTrap {
        /// Action to perform.
        action: Action<F32, F64>,
        /// Expected failure should be with this message.
        message: String,
    },
    /// Assert that specified module is invalid.
    AssertInvalid {
        /// Module that should be invalid.
        module: ModuleBinary,
        /// Expected failure should be with this message.
        message: String,
    },
    /// Assert that specified module cannot be decoded.
    AssertMalformed {
        /// Module that should be malformed.
        module: ModuleBinary,
        /// Expected failure should be with this message.
        message: String,
    },
    /// Assert that specified module is uninstantiable.
    AssertUninstantiable {
        /// Module that should be uninstantiable.
        module: ModuleBinary,
        /// Expected failure should be with this message.
        message: String,
    },
    /// Assert that specified action should yield in resource exhaustion.
    AssertExhaustion {
        /// Action to perform.
        action: Action<F32, F64>,
    },
    /// Assert that specified module fails to link.
    AssertUnlinkable {
        /// Module that should be unlinkable.
        module: ModuleBinary,
        /// Expected failure should be with this message.
        message: String,
    },
    /// Register a module under specified name (`as_name`).
    Register {
        /// Name of the module, which should be registered under different name.
        ///
        /// If `None` then the last defined module should be used.
        name: Option<String>,
        /// New name of the specified module.
        as_name: String,
    },
    /// Perform the specified action.
    PerformAction(Action<F32, F64>),
}

/// What a [`CommandKind`] holds, as mathematical text and sequences.
pub enum CommandKindView<F32, F64> {
    Module { module: Seq<u8>, name: Option<Seq<char>> },
    AssertReturn { action: ActionView<F32, F64>, expected: Seq<Value<F32, F64>> },
    AssertReturnCanonicalNan { action: ActionView<F32, F64> },
    AssertReturnArithmeticNan { action: ActionView<F32, F64> },
    AssertTrap { action: ActionView<F32, F64>, message: Seq<char> },
    AssertInvalid { module: Seq<u8>, message: Seq<char> },
    AssertMalformed { module: Seq<u8>, message: Seq<char> },
    AssertUninstantiable { module: Seq<u8>, message: Seq<char> },
    AssertExhaustion { action: ActionView<F32, F64> },
    AssertUnlinkable { module: Seq<u8>, message: Seq<char> },
    Register { name: Option<Seq<char>>, as_name: Seq<char> },
    PerformAction(ActionView<F32, F64>),
}

impl<F32, F64> View for CommandKind<F32, F64> {
    type V = CommandKindView<F32, F64>;

    open spec fn view(&self) -> CommandKindView<F32, F64> {
        match *self {
            CommandKind::Module { module, name } => CommandKindView::Module {
                module: module@,
                name: json::opt_text(name),
            },
            CommandKind::AssertReturn { action, expected } => CommandKindView::AssertReturn {
                action: action@,
                expected: expected@,
            },
            CommandKind::AssertReturnCanonicalNan { action } => {
                CommandKindView::AssertReturnCanonicalNan { action: action@ }
            },
            CommandKind::AssertReturnArithmeticNan { action } => {
                CommandKindView::AssertReturnArithmeticNan { action: action@ }
            },
            CommandKind::AssertTrap { action, message } => CommandKindView::AssertTrap {
                action: action@,
                message: message@,
            },
            CommandKind::AssertInvalid { module, message } => CommandKindView::AssertInvalid {
                module: module@,
                message: message@,
            },
            CommandKind::AssertMalformed { module, message } => CommandKindView::AssertMalformed {
                module: module@,
                message: message@,
            },
            CommandKind::AssertUninstantiable { module, message } => {
                CommandKindView::AssertUninstantiable { module: module@, message: message@ }
            },
            CommandKind::AssertExhaustion { action } => CommandKindView::AssertExhaustion {
                action: action@,
            },
            CommandKind::AssertUnlinkable { module, message } => CommandKindView::AssertUnlinkable {
                module: module@,
                message: message@,
            },
            CommandKind::Register { name, as_name } => CommandKindView::Register {
                name: json::opt_text(name),
                as_name: as_name@,
            },
            CommandKind::PerformAction(action) => CommandKindView::PerformAction(action@),
        }
    }
}

/// Command in the script.
///
/// It consists of line number and [`CommandKind`].
#[derive(Clone, Debug, PartialEq)]
pub struct Command<F32 = u32, F64 = u64> {
    /// Line number the command is defined on.
    pub line: u64,
    /// Kind of the command.
    pub kind: CommandKind<F32, F64>,
}

/// What a [`Command`] holds, as mathematical text and sequences.
pub struct CommandView<F32, F64> {
    pub line: u64,
    pub kind: CommandKindView<F32, F64>,
}

impl<F32, F64> View for Command<F32, F64> {
    type V = CommandView<F32, F64>;

    open spec fn view(&self) -> CommandView<F32, F64> {
        CommandView { line: self.line, kind: self.kind@ }
    }
}

/// The binary filed under `filename`. A name the store does not hold makes
/// the intermediate form malformed: the script compiler files a binary
/// under every name its commands mention.
pub open spec fn stored_module(store: Map<Seq<char>, Seq<u8>>, filename: Seq<char>) -> Result<
    Seq<u8>,
    ErrorView,
> {
    if store.dom().contains(filename) {
        Ok(store[filename])
    } else {
        Err(ErrorView::MalformedIntermediateForm(filename))
    }
}

/// A command that names a module file the store does not hold is not
/// decoded: it fails as a malformed intermediate form, with the missing
/// name and the command's line, and so as neither a value-decoding nor an
/// IO error.
pub proof fn lemma_missing_module_is_malformed<F32: FromBits<u32>, F64: FromBits<u64>>(
    cmd: json::CommandView,
    store: Map<Seq<char>, Seq<u8>>,
)
    requires
        cmd.filename() is Some,
        !store.dom().contains(cmd.filename()->Some_0),
    ensures
        normalized::<F32, F64>(cmd, store) == Err::<CommandView<F32, F64>, ErrorView>(
            ErrorView::WithLineInfo {
                line: cmd.line(),
                error: Box::new(ErrorView::MalformedIntermediateForm(cmd.filename()->Some_0)),
            },
        ),
        normalized::<F32, F64>(cmd, store)->Err_0.root() is MalformedIntermediateForm,
{
    reveal_with_fuel(ErrorView::root, 3);
}

/// The kind of command that a command of the intermediate form stands for.
pub open spec fn normalized_kind<F32: FromBits<u32>, F64: FromBits<u64>>(
    cmd: json::CommandView,
    store: Map<Seq<char>, Seq<u8>>,
) -> Result<CommandKindView<F32, F64>, ErrorView> {
    match cmd {
        json::CommandView::Module { name, filename, .. } => match stored_module(store, filename) {
            Err(e) => Err(e),
            Ok(module) => Ok(CommandKindView::Module { module, name }),
        },
        json::CommandView::AssertReturn { action, expected, .. } => match decoded_action::<
            F32,
            F64,
        >(action) {
            Err(e) => Err(e),
            Ok(action) => match decoded_values::<F32, F64>(expected) {
                Err(e) => Err(ErrorView::ValueDecode(e)),
                Ok(expected) => Ok(CommandKindView::AssertReturn { action, expected }),
            },
        },
        json::CommandView::AssertReturnCanonicalNan { action, .. } => match decoded_action::<
            F32,
            F64,
        >(action) {
            Err(e) => Err(e),
            Ok(action) => Ok(CommandKindView::AssertReturnCanonicalNan { action }),
        },
        json::CommandView::AssertReturnArithmeticNan { action, .. } => match decoded_action::<
            F32,
            F64,
        >(action) {
            Err(e) => Err(e),
            Ok(action) => Ok(CommandKindView::AssertReturnArithmeticNan { action }),
        },
        json::CommandView::AssertTrap { action, text, .. } => match decoded_action::<F32, F64>(
            action,
        ) {
            Err(e) => Err(e),
            Ok(action) => Ok(CommandKindView::AssertTrap { action, message: text }),
        },
        json::CommandView::AssertInvalid { filename, text, .. } => match stored_module(
            store,
            filename,
        ) {
            Err(e) => Err(e),
            Ok(module) => Ok(CommandKindView::AssertInvalid { module, message: text }),
        },
        json::CommandView::AssertMalformed { filename, text, .. } => match stored_module(
            store,
            filename,
        ) {
            Err(e) => Err(e),
            Ok(module) => Ok(CommandKindView::AssertMalformed { module, message: text }),
        },
        json::CommandView::AssertUninstantiable { filename, text, .. } => match stored_module(
            store,
            filename,
        ) {
            Err(e) => Err(e),
            Ok(module) => Ok(CommandKindView::AssertUninstantiable { module, message: text }),
        },
        json::CommandView::AssertExhaustion { action, .. } => match decoded_action::<F32, F64>(
            action,
        ) {
            Err(e) => Err(e),
            Ok(action) => Ok(CommandKindView::AssertExhaustion { action }),
        },
        json::CommandView::AssertUnlinkable { filename, text, .. } => match stored_module(
            store,
            filename,
        ) {
            Err(e) => Err(e),
            Ok(module) => Ok(CommandKindView::AssertUnlinkable { module, message: text }),
        },
        json::CommandView::Register { name, as_name, .. } => Ok(
            CommandKindView::Register { name, as_name },
        ),
        json::CommandView::Action { action, .. } => match decoded_action::<F32, F64>(action) {
            Err(e) => Err(e),
            Ok(action) => Ok(CommandKindView::PerformAction(action)),
        },
    }
}

/// The command that a command of the intermediate form stands for: its
/// line and its kind. A failure carries the line of the command it
/// occurred in.
pub open spec fn normalized<F32: FromBits<u32>, F64: FromBits<u64>>(
    cmd: json::CommandView,
    store: Map<Seq<char>, Seq<u8>>,
) -> Result<CommandView<F32, F64>, ErrorView> {
    match normalized_kind::<F32, F64>(cmd, store) {
        Ok(kind) => Ok(CommandView { line: cmd.line(), kind }),
        Err(e) => Err(ErrorView::WithLineInfo { line: cmd.line(), error: Box::new(e) }),
    }
}

/// Fetches the binary that a command refers to.
pub fn get_module(modules: &ModuleStore, filename: &String) -> (r: Result<ModuleBinary, Error>)
    ensures
        match stored_module(modules@, filename@) {
            Ok(bytes) => r is Ok && r->Ok_0@ == bytes,
            Err(e) => r is Err && r->Err_0@ == e,
        },
{
    match modules.get(filename.as_str()) {
        Some(module) => Ok(module),
        None => Err(Error::MalformedIntermediateForm(filename.clone())),
    }
}

/// Decodes the kind of one command of the intermediate form.
pub fn normalize_kind<F32: FromBits<u32>, F64: FromBits<u64>>(
    command: &json::Command,
    modules: &ModuleStore,
) -> (r: Result<CommandKind<F32, F64>, Error>)
    ensures
        match normalized_kind::<F32, F64>(command@, modules@) {
            Ok(kind) => r is Ok && r->Ok_0@ == kind,
            Err(e) => r is Err && r->Err_0@ == e,
        },
{
    match command {
        json::Command::Module { line: _, name, filename } => {
            let module = get_module(modules, filename)?;
            Ok(CommandKind::Module { module, name: clone_name(name) })
        },
        json::Command::AssertReturn { line: _, action, expected } => {
            let action = parse_action::<F32, F64>(action)?;
            let expected = match parse_value_list::<F32, F64>(expected) {
                Ok(expected) => expected,
                Err(e) => {
                    return Err(Error::ValueDecode(e));
                },
            };
            Ok(CommandKind::AssertReturn { action, expected })
        },
        json::Command::AssertReturnCanonicalNan { line: _, action } => {
            let action = parse_action::<F32, F64>(action)?;
            Ok(CommandKind::AssertReturnCanonicalNan { action })
        },
        json::Command::AssertReturnArithmeticNan { line: _, action } => {
            let action = parse_action::<F32, F64>(action)?;
            Ok(CommandKind::AssertReturnArithmeticNan { action })
        },
        json::Command::AssertExhaustion { line: _, action } => {
            let action = parse_action::<F32, F64>(action)?;
            Ok(CommandKind::AssertExhaustion { action })
        },
        json::Command::AssertTrap { line: _, action, text } => {
            let action = parse_action::<F32, F64>(action)?;
            Ok(CommandKind::AssertTrap { action, message: text.clone() })
        },
        json::Command::AssertInvalid { line: _, filename, text } => {
            let module = get_module(modules, filename)?;
            Ok(CommandKind::AssertInvalid { module, message: text.clone() })
        },
        json::Command::AssertMalformed { line: _, filename, text } => {
            let module = get_module(modules, filename)?;
            Ok(CommandKind::AssertMalformed { module, message: text.clone() })
        },
        json::Command::AssertUnlinkable { line: _, filename, text } => {
            let module = get_module(modules, filename)?;
            Ok(CommandKind::AssertUnlinkable { module, message: text.clone() })
        },
        json::Command::AssertUninstantiable { line: _, filename, text } => {
            let module = get_module(modules, filename)?;
            Ok(CommandKind::AssertUninstantiable { module, message: text.clone() })
        },
        json::Command::Register { line: _, name, as_name } => {
            Ok(CommandKind::Register { name: clone_name(name), as_name: as_name.clone() })
        },
        json::Command::Action { line: _, action } => {
            let action = parse_action::<F32, F64>(action)?;
            Ok(CommandKind::PerformAction(action))
        },
    }
}

/// The source line a command of the intermediate form starts on.
pub fn command_line(command: &json::Command) -> (line: u64)
    ensures
        line == command@.line(),
{
    match command {
        json::Command::Module { line, .. } => *line,
        json::Command::AssertReturn { line, .. } => *line,
        json::Command::AssertReturnCanonicalNan { line, .. } => *line,
        json::Command::AssertReturnArithmeticNan { line, .. } => *line,
        json::Command::AssertTrap { line, .. } => *line,
        json::Command::AssertInvalid { line, .. } => *line,
        json::Command::AssertMalformed { line, .. } => *line,
        json::Command::AssertUninstantiable { line, .. } => *line,
        json::Command::AssertExhaustion { line, .. } => *line,
        json::Command::AssertUnlinkable { line, .. } => *line,
        json::Command::Register { line, .. } => *line,
        json::Command::Action { line, .. } => *line,
    }
}

/// Decodes one command of the intermediate form: the command normalizer.
///
/// Commands that name a module file get that module's binary from
/// `modules`; actions and values are decoded; everything else is carried
/// over. The first failure ends the decoding and is returned with the
/// command's line.
pub fn normalize_command<F32: FromBits<u32>, F64: FromBits<u64>>(
    command: &json::Command,
    modules: &ModuleStore,
) -> (r: Result<Command<F32, F64>, Error>)
    ensures
        match normalized::<F32, F64>(command@, modules@) {
            Ok(c) => r is Ok && r->Ok_0@ == c,
            Err(e) => r is Err && r->Err_0@ == e,
        },
{
    let line = command_line(command);
    match normalize_kind::<F32, F64>(command, modules) {
        Ok(kind) => Ok(Command { line, kind }),
        Err(e) => Err(Error::WithLineInfo { line, error: Box::new(e) }),
    }
}

/// Parser which allows to parse WebAssembly script text format.
///
/// It holds the compiled form of one script and hands its commands out in
/// source order, decoding each when it is asked for.
pub struct ScriptParser<F32 = u32, F64 = u64> {
    commands: Vec<json::Command>,
    cursor: usize,
    modules: ModuleStore,
    _phantom: core::marker::PhantomData<(F32, F64)>,
}

impl<F32, F64> ScriptParser<F32, F64> {
    #[verifier::type_invariant]
    spec fn cursor_in_range(self) -> bool {
        self.cursor <= self.commands@.len()
    }

    /// The script's commands in intermediate form, in source order.
    pub closed spec fn commands(self) -> Seq<json::CommandView> {
        json::commands_view(self.commands@)
    }

    /// How many commands have been handed out.
    pub closed spec fn cursor(self) -> nat {
        self.cursor as nat
    }

    /// The script's module binaries by file name.
    pub closed spec fn modules(self) -> Map<Seq<char>, Seq<u8>> {
        self.modules@
    }

    /// Whether every command has been handed out.
    pub open spec fn exhausted(self) -> bool {
        self.cursor() == self.commands().len()
    }

    /// How many commands are still to be handed out.
    pub fn remaining(&self) -> (n: usize)
        ensures
            self.cursor() + n == self.commands().len(),
    {
        proof {
            use_type_invariant(self);
        }
        self.commands.len() - self.cursor
    }

}

impl<F32: FromBits<u32>, F64: FromBits<u64>> ScriptParser<F32, F64> {
    /// A parser over the compiled form of a script: its commands and its
    /// module binaries. Nothing has been handed out yet.
    pub fn from_compiled(spec: json::Spec, modules: ModuleStore) -> (r: Self)
        ensures
            r.commands() == json::commands_view(spec.commands@),
            r.modules() == modules@,
            r.cursor() == 0,
    {
        ScriptParser {
            commands: spec.commands,
            cursor: 0,
            modules,
            _phantom: core::marker::PhantomData,
        }
    }

    /// Returns the next [`Command`] from the script.
    ///
    /// Returns `Err` if an error occurred while parsing the script,
    /// or returns `None` if the parser reached end of script. A command is
    /// handed out at most once: the cursor moves past it whether or not it
    /// decoded.
    pub fn next(&mut self) -> (r: Result<Option<Command<F32, F64>>, Error>)
        ensures
            final(self).commands() == old(self).commands(),
            final(self).modules() == old(self).modules(),
            old(self).exhausted() ==> r == Ok::<Option<Command<F32, F64>>, Error>(None)
                && final(self).cursor() == old(self).cursor(),
            !old(self).exhausted() ==> {
                &&& old(self).cursor() < old(self).commands().len()
                &&& final(self).cursor() == old(self).cursor() + 1
                &&& match normalized::<F32, F64>(
                    old(self).commands()[old(self).cursor() as int],
                    old(self).modules(),
                ) {
                    Ok(c) => r is Ok && r->Ok_0 is Some && r->Ok_0->Some_0@ == c,
                    Err(e) => r is Err && r->Err_0@ == e,
                }
            },
    {
        proof {
            use_type_invariant(&*self);
        }
        if self.cursor >= self.commands.len() {
            return Ok(None);
        }
        let index = self.cursor;
        self.cursor = index + 1;
        match normalize_command::<F32, F64>(&self.commands[index], &self.modules) {
            Ok(command) => Ok(Some(command)),
            Err(e) => Err(e),
        }
    }
}

/// The extension a script's file name must have.
pub open spec fn script_suffix() -> Seq<char> {
    seq!['.', 'w', 'a', 's', 't']
}

/// What is reported of a file name without the script extension.
pub open spec fn bad_name_message(test_filename: Seq<char>) -> Seq<char> {
    "Provided "@ + test_filename + " should have .wast extension"@
}

/// Checks the file name a script is compiled under: it must end in
/// `.wast`. This comes before anything is compiled.
pub fn check_test_filename(test_filename: &str) -> (r: Result<(), Error>)
    ensures
        r is Ok <==> has_suffix(test_filename@, script_suffix()),
        r is Err ==> r->Err_0@ == ErrorView::Other(bad_name_message(test_filename@)),
{
    proof {
        reveal_strlit(".wast");
        assert(".wast"@ =~= script_suffix());
    }
    if ends_with(test_filename, ".wast") {
        Ok(())
    } else {
        let mut message = String::from_str("Provided ");
        message.append(test_filename);
        message.append(" should have .wast extension");
        Err(Error::Other(message))
    }
}

/// Begins the compilation of a script for the streaming parser: parse,
/// resolve names, validate, write the intermediate form and the binaries.
pub fn wast2json() -> (r: Conversion)
    ensures
        r.steps() == script_steps(true),
        r.taken() == 0,
{
    compile_script(true)
}

} // verus!

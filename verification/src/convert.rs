//! Conversions between the text and the binary format of a module: their
//! options, the steps they are made of, and the error each step can end in.

use vstd::prelude::*;
use crate::error::Error;
use crate::error::ErrorKind;
use crate::error::ErrorKindView;
use crate::features::FeatureFlags;
use crate::features::Features;
use crate::text::contains_char;
use crate::text::string_from_utf8;
use vstd::utf8::{decode_utf8, valid_utf8};

verus! {

/// Options for writing a module in binary format.
#[derive(Copy, Clone, Debug, PartialEq, Eq)]
pub struct WriteBinaryOptions {
    pub log: bool,
    pub canonicalize_lebs: bool,
    pub relocatable: bool,
    pub write_debug_names: bool,
}

impl Default for WriteBinaryOptions {
    fn default() -> (r: WriteBinaryOptions)
        ensures
            r == (WriteBinaryOptions {
                log: false,
                canonicalize_lebs: true,
                relocatable: false,
                write_debug_names: false,
            }),
    {
        WriteBinaryOptions {
            log: false,
            canonicalize_lebs: true,
            relocatable: false,
            write_debug_names: false,
        }
    }
}

/// Options for writing a module in text format.
#[derive(Copy, Clone, Debug, PartialEq, Eq)]
pub struct WriteTextOptions {
    pub fold_exprs: bool,
    pub inline_export: bool,
}

impl Default for WriteTextOptions {
    fn default() -> (r: WriteTextOptions)
        ensures
            r == (WriteTextOptions { fold_exprs: false, inline_export: false }),
    {
        WriteTextOptions { fold_exprs: false, inline_export: false }
    }
}

/// Options for reading read binary.
#[derive(Copy, Clone, Debug, PartialEq, Eq)]
pub struct ReadBinaryOptions {
    pub read_debug_names: bool,
}

impl Default for ReadBinaryOptions {
    fn default() -> (r: ReadBinaryOptions)
        ensures
            r == (ReadBinaryOptions { read_debug_names: false }),
    {
        ReadBinaryOptions { read_debug_names: false }
    }
}

/// A builder for converting wasm text source to wasm binary format.
pub struct Wat2Wasm {
    validate: bool,
    write_binary_options: WriteBinaryOptions,
    features: Features,
}

/// What a [`Wat2Wasm`] is set to.
pub struct Wat2WasmView {
    pub validate: bool,
    pub write_binary_options: WriteBinaryOptions,
    pub features: FeatureFlags,
}

impl View for Wat2Wasm {
    type V = Wat2WasmView;

    closed spec fn view(&self) -> Wat2WasmView {
        Wat2WasmView {
            validate: self.validate,
            write_binary_options: self.write_binary_options,
            features: self.features@,
        }
    }
}

impl Wat2Wasm {
    /// Create `Wat2Wasm` with default configuration.
    pub fn new() -> (r: Wat2Wasm)
        ensures
            r@ == (Wat2WasmView {
                validate: true,
                write_binary_options: WriteBinaryOptions {
                    log: false,
                    canonicalize_lebs: true,
                    relocatable: false,
                    write_debug_names: false,
                },
                features: crate::features::default_flags(),
            }),
    {
        Wat2Wasm {
            write_binary_options: WriteBinaryOptions::default(),
            validate: true,
            features: Features::new(),
        }
    }

    /// Write canonicalized LEB128 for var ints.
    ///
    /// Set this to `false` to write all LEB128 sizes as 5-bytes instead of their minimal size.
    /// `true` by default.
    pub fn canonicalize_lebs(&mut self, canonicalize_lebs: bool) -> (r: &mut Wat2Wasm)
        ensures
            r@ == (Wat2WasmView {
                write_binary_options: WriteBinaryOptions {
                    canonicalize_lebs,
                    ..old(self)@.write_binary_options
                },
                ..old(self)@
            }),
            *final(self) == *final(r),
    {
        self.write_binary_options.canonicalize_lebs = canonicalize_lebs;
        self
    }

    /// Create a relocatable wasm binary
    ///
    /// (suitable for linking with wasm-link).
    /// `false` by default.
    pub fn relocatable(&mut self, relocatable: bool) -> (r: &mut Wat2Wasm)
        ensures
            r@ == (Wat2WasmView {
                write_binary_options: WriteBinaryOptions {
                    relocatable,
                    ..old(self)@.write_binary_options
                },
                ..old(self)@
            }),
            *final(self) == *final(r),
    {
        self.write_binary_options.relocatable = relocatable;
        self
    }

    /// Write debug names to the generated binary file
    ///
    /// `false` by default.
    pub fn write_debug_names(&mut self, write_debug_names: bool) -> (r: &mut Wat2Wasm)
        ensures
            r@ == (Wat2WasmView {
                write_binary_options: WriteBinaryOptions {
                    write_debug_names,
                    ..old(self)@.write_binary_options
                },
                ..old(self)@
            }),
            *final(self) == *final(r),
    {
        self.write_binary_options.write_debug_names = write_debug_names;
        self
    }

    /// Check for validity of module before writing.
    ///
    /// `true` by default.
    pub fn validate(&mut self, validate: bool) -> (r: &mut Wat2Wasm)
        ensures
            r@ == (Wat2WasmView { validate, ..old(self)@ }),
            *final(self) == *final(r),
    {
        self.validate = validate;
        self
    }

    /// Accept the given features in place of the default ones.
    pub fn features(&mut self, features: Features) -> (r: &mut Wat2Wasm)
        ensures
            r@ == (Wat2WasmView { features: features@, ..old(self)@ }),
            *final(self) == *final(r),
    {
        self.features = features;
        self
    }

    /// The features the module text is parsed and validated with.
    pub fn enabled_features(&self) -> (r: &Features)
        ensures
            r@ == self@.features,
    {
        &self.features
    }

    /// Perform conversion.
    ///
    /// The conversion is handed out as the steps to take with the toolkit,
    /// in order: parse, resolve names, validate unless switched off, write.
    pub fn convert(&self) -> (r: Conversion)
        ensures
            r.steps() == wat2wasm_steps(self@),
            r.taken() == 0,
    {
        let mut steps: Vec<Step> = Vec::new();
        steps.push(Step::ParseWat);
        steps.push(Step::ResolveNames);
        if self.validate {
            steps.push(Step::Validate);
        }
        steps.push(Step::WriteBinary(self.write_binary_options));
        assert(steps@ =~= wat2wasm_steps(self@));
        Conversion::new(steps)
    }
}

/// One operation of the conversion toolkit.
#[derive(Copy, Clone, Debug, PartialEq, Eq)]
pub enum Step {
    /// Parse a module in text format.
    ParseWat,
    /// Parse a script.
    ParseWast,
    /// Read a module in binary format.
    ReadBinary(ReadBinaryOptions),
    /// Resolve the names the module uses to indices.
    ResolveNames,
    /// Validate the module.
    Validate,
    /// Write the module in binary format.
    WriteBinary(WriteBinaryOptions),
    /// Write the module in text format.
    WriteText(WriteTextOptions),
    /// Write a script's intermediate form and the binaries of its modules.
    WriteScript(WriteBinaryOptions),
}

/// The steps that turn module text into a binary.
pub open spec fn wat2wasm_steps(settings: Wat2WasmView) -> Seq<Step> {
    if settings.validate {
        seq![
            Step::ParseWat,
            Step::ResolveNames,
            Step::Validate,
            Step::WriteBinary(settings.write_binary_options),
        ]
    } else {
        seq![Step::ParseWat, Step::ResolveNames, Step::WriteBinary(settings.write_binary_options)]
    }
}

/// The steps that turn a module binary into text.
pub open spec fn wasm2wat_steps(settings: Wasm2WatView) -> Seq<Step> {
    seq![
        Step::ReadBinary(settings.read_binary_options),
        Step::WriteText(settings.write_text_options),
    ]
}

/// The kind of error that a failure of `step` is reported as; `message` is
/// what the toolkit said, kept where the kind has room for it.
pub open spec fn failure_kind(step: Step, message: Seq<char>) -> ErrorKindView {
    match step {
        Step::ParseWat | Step::ParseWast => ErrorKindView::Parse(message),
        Step::ReadBinary(_) => ErrorKindView::Deserialize(message),
        Step::ResolveNames => ErrorKindView::ResolveNames(message),
        Step::Validate => ErrorKindView::Validate(message),
        Step::WriteBinary(_) | Step::WriteScript(_) => ErrorKindView::WriteBinary,
        Step::WriteText(_) => ErrorKindView::WriteText,
    }
}

/// The error that ends a conversion whose step `step` failed.
pub fn step_failure(step: Step, message: String) -> (r: Error)
    ensures
        r@ == failure_kind(step, message@),
{
    match step {
        Step::ParseWat | Step::ParseWast => Error::new(ErrorKind::Parse(message)),
        Step::ReadBinary(_) => Error::new(ErrorKind::Deserialize(message)),
        Step::ResolveNames => Error::new(ErrorKind::ResolveNames(message)),
        Step::Validate => Error::new(ErrorKind::Validate(message)),
        Step::WriteBinary(_) | Step::WriteScript(_) => Error::new(ErrorKind::WriteBinary),
        Step::WriteText(_) => Error::new(ErrorKind::WriteText),
    }
}

/// A builder for converting wasm binary to wasm text format.
pub struct Wasm2Wat {
    read_binary_options: ReadBinaryOptions,
    write_text_options: WriteTextOptions,
}

/// What a [`Wasm2Wat`] is set to.
pub struct Wasm2WatView {
    pub read_binary_options: ReadBinaryOptions,
    pub write_text_options: WriteTextOptions,
}

impl View for Wasm2Wat {
    type V = Wasm2WatView;

    closed spec fn view(&self) -> Wasm2WatView {
        Wasm2WatView {
            read_binary_options: self.read_binary_options,
            write_text_options: self.write_text_options,
        }
    }
}

impl Wasm2Wat {
    /// Create `Wasm2Wat` with default configuration.
    pub fn new() -> (r: Wasm2Wat)
        ensures
            r@ == (Wasm2WatView {
                read_binary_options: ReadBinaryOptions { read_debug_names: false },
                write_text_options: WriteTextOptions { fold_exprs: false, inline_export: false },
            }),
    {
        Wasm2Wat {
            read_binary_options: ReadBinaryOptions::default(),
            write_text_options: WriteTextOptions::default(),
        }
    }

    /// Read debug names in the binary file.
    ///
    /// `false` by default.
    pub fn read_debug_names(&mut self, read_debug_names: bool) -> (r: &mut Wasm2Wat)
        ensures
            r@ == (Wasm2WatView {
                read_binary_options: ReadBinaryOptions { read_debug_names },
                ..old(self)@
            }),
            *final(self) == *final(r),
    {
        self.read_binary_options.read_debug_names = read_debug_names;
        self
    }

    /// Write folded expressions where possible.
    ///
    /// `false` by default.
    pub fn fold_exprs(&mut self, fold_exprs: bool) -> (r: &mut Wasm2Wat)
        ensures
            r@ == (Wasm2WatView {
                write_text_options: WriteTextOptions {
                    fold_exprs,
                    ..old(self)@.write_text_options
                },
                ..old(self)@
            }),
            *final(self) == *final(r),
    {
        self.write_text_options.fold_exprs = fold_exprs;
        self
    }

    /// Write all exports inline.
    ///
    /// `false` by default.
    pub fn inline_export(&mut self, inline_export: bool) -> (r: &mut Wasm2Wat)
        ensures
            r@ == (Wasm2WatView {
                write_text_options: WriteTextOptions {
                    inline_export,
                    ..old(self)@.write_text_options
                },
                ..old(self)@
            }),
            *final(self) == *final(r),
    {
        self.write_text_options.inline_export = inline_export;
        self
    }

    /// Perform conversion.
    ///
    /// The conversion is handed out as the steps to take with the toolkit,
    /// in order: read the binary, write the text.
    pub fn convert(&self) -> (r: Conversion)
        ensures
            r.steps() == wasm2wat_steps(self@),
            r.taken() == 0,
    {
        let mut steps: Vec<Step> = Vec::new();
        steps.push(Step::ReadBinary(self.read_binary_options));
        steps.push(Step::WriteText(self.write_text_options));
        assert(steps@ =~= wasm2wat_steps(self@));
        Conversion::new(steps)
    }
}

/// A conversion under way: the steps it is made of and how many of them
/// have been taken. Whoever drives it performs the pending step with the
/// toolkit and reports how it went; a failure ends the conversion.
pub struct Conversion {
    steps: Vec<Step>,
    taken: usize,
}

impl Conversion {
    #[verifier::type_invariant]
    spec fn taken_in_range(self) -> bool {
        self.taken <= self.steps@.len()
    }

    /// All steps of the conversion, in order.
    pub closed spec fn steps(self) -> Seq<Step> {
        self.steps@
    }

    /// How many steps have succeeded.
    pub closed spec fn taken(self) -> nat {
        self.taken as nat
    }

    /// Whether every step has succeeded.
    pub open spec fn finished(self) -> bool {
        self.taken() == self.steps().len()
    }

    /// A conversion made of `steps`, none of them taken.
    pub fn new(steps: Vec<Step>) -> (r: Conversion)
        ensures
            r.steps() == steps@,
            r.taken() == 0,
    {
        Conversion { steps, taken: 0 }
    }

    /// The step to perform next, or `None` once all have succeeded.
    pub fn pending(&self) -> (r: Option<Step>)
        ensures
            self.taken() <= self.steps().len(),
            r == if self.finished() {
                None
            } else {
                Some(self.steps()[self.taken() as int])
            },
    {
        proof {
            use_type_invariant(self);
        }
        if self.taken < self.steps.len() {
            Some(self.steps[self.taken])
        } else {
            None
        }
    }

    /// Records that the pending step succeeded. Nothing changes once the
    /// conversion has finished.
    pub fn step_done(&mut self)
        ensures
            final(self).steps() == old(self).steps(),
            final(self).taken() == if old(self).finished() {
                old(self).taken()
            } else {
                old(self).taken() + 1
            },
    {
        proof {
            use_type_invariant(&*self);
        }
        if self.taken < self.steps.len() {
            self.taken = self.taken + 1;
        }
    }

    /// Ends the conversion because the pending step failed with `message`,
    /// and gives the error to report. `None` where no step was pending.
    pub fn step_failed(self, message: String) -> (r: Option<Error>)
        ensures
            r is None <==> self.finished(),
            r is Some ==> r->Some_0@ == failure_kind(
                self.steps()[self.taken() as int],
                message@,
            ),
    {
        proof {
            use_type_invariant(&self);
        }
        if self.taken < self.steps.len() {
            Some(step_failure(self.steps[self.taken], message))
        } else {
            None
        }
    }
}

/// The steps that compile a script into its intermediate form and module
/// binaries: parse, resolve names unless `resolve_names` is off, validate,
/// write. Binaries are written with the default options.
pub open spec fn script_steps(resolve_names: bool) -> Seq<Step> {
    let write = Step::WriteScript(
        WriteBinaryOptions {
            log: false,
            canonicalize_lebs: true,
            relocatable: false,
            write_debug_names: false,
        },
    );
    if resolve_names {
        seq![Step::ParseWast, Step::ResolveNames, Step::Validate, write]
    } else {
        seq![Step::ParseWast, Step::Validate, write]
    }
}

/// Begins the compilation of a script.
pub fn compile_script(resolve_names: bool) -> (r: Conversion)
    ensures
        r.steps() == script_steps(resolve_names),
        r.taken() == 0,
{
    let mut steps: Vec<Step> = Vec::new();
    steps.push(Step::ParseWast);
    if resolve_names {
        steps.push(Step::ResolveNames);
    }
    steps.push(Step::Validate);
    steps.push(Step::WriteScript(WriteBinaryOptions::default()));
    assert(steps@ =~= script_steps(resolve_names));
    Conversion::new(steps)
}

/// The text that a conversion to text format wrote, provided the bytes are
/// UTF-8.
pub fn text_of_output(bytes: Vec<u8>) -> (r: Result<String, Error>)
    ensures
        r is Ok <==> valid_utf8(bytes@),
        r is Ok ==> r->Ok_0@ == decode_utf8(bytes@),
        r is Err ==> r->Err_0@ == ErrorKindView::NonUtf8Result,
{
    match string_from_utf8(bytes) {
        Some(text) => Ok(text),
        None => Err(Error::new(ErrorKind::NonUtf8Result)),
    }
}

/// Checks that a file name can be handed to the toolkit: it may not hold
/// a NUL character.
pub fn check_file_name(name: &str) -> (r: Result<(), Error>)
    ensures
        r is Err <==> name@.contains('\0'),
        r is Err ==> r->Err_0@ == ErrorKindView::Nul,
{
    if contains_char(name, '\0') {
        Err(Error::new(ErrorKind::Nul))
    } else {
        Ok(())
    }
}

} // verus!

//! Running a script against a visitor: every command is decoded and handed
//! to the callback that belongs to its kind, in source order, until one
//! fails.

use vstd::prelude::*;
use crate::binary::ModuleStore;
use crate::json;
use crate::script::{clone_name, command_line, normalize_kind, normalized_kind};
use crate::script::{CommandKind, CommandKindView, ErrorView, QuietF32, QuietF64};
use crate::script::{decoded_action, decoded_value, decoded_values, FromBits};
use crate::script::{ValueDecodeError, ValueDecodeErrorView};
use crate::text::{ends_with, has_suffix, same_text};
use vstd::string::StrSliceExecFns;
use vstd::string::StringExecFns;

verus! {

/// Wasm value, its floats held as a native float holds them.
pub type Value = crate::script::Value<QuietF32, QuietF64>;

/// Description of action that should be performed on a wasm module.
pub type Action = crate::script::Action<QuietF32, QuietF64>;

/// Error that can happen when parsing spec or executing spec tests.
#[derive(Debug)]
pub enum Error<E> {
    /// IO error happened during parsing.
    IoError(String),
    /// The script compiler reported an error while converting the script.
    WabtError(crate::error::Error),
    /// The intermediate form breaks what the script compiler promises of
    /// it; the text is the offending fragment.
    MalformedIntermediateForm(String),
    /// A number of the intermediate form could not be decoded.
    ValueDecode(ValueDecodeError),
    /// Other error represented by String.
    Other(String),
    /// User provided error.
    User(E),
}

impl<E> From<crate::error::Error> for Error<E> {
    fn from(e: crate::error::Error) -> (r: Error<E>) {
        Error::WabtError(e)
    }
}

impl<E> vstd::std_specs::convert::FromSpecImpl<crate::error::Error> for Error<E> {
    open spec fn obeys_from_spec() -> bool {
        true
    }

    open spec fn from_spec(e: crate::error::Error) -> Error<E> {
        Error::WabtError(e)
    }
}

impl<E> Error<E> {
    /// Returns `Some` if this error contains user-specific error, and `None` otherwise.
    pub fn as_user_error(&self) -> (r: Option<&E>)
        ensures
            r == match *self {
                Error::User(e) => Some(&e),
                _ => None,
            },
    {
        match self {
            Error::User(e) => Some(e),
            _ => None,
        }
    }
}

/// Implement this trait to be able to run the spec scripts.
///
/// There is one callback for the beginning of a script and one for each
/// kind of command. A callback that an implementation does not write
/// accepts what it is given and leaves the visitor as it is.
#[allow(unused)]
pub trait Visitor<E>: Sized {
    /// Called upon beginning of the spec script.
    fn begin_spec(&mut self, source_filename: &str) -> (r: Result<(), E>)
        default_ensures
            r == Ok::<(), E>(()),
            *final(self) == *old(self),
    {
        Ok(())
    }

    /// Define a module with specified optional name.
    fn module(&mut self, line: u64, wasm: &[u8], name: Option<String>) -> (r: Result<(), E>)
        default_ensures
            r == Ok::<(), E>(()),
            *final(self) == *old(self),
    {
        Ok(())
    }

    /// Assert that specified action should yield expected results.
    fn assert_return(&mut self, line: u64, action: &Action, expected: &[Value]) -> (r: Result<(), E>)
        default_ensures
            r == Ok::<(), E>(()),
            *final(self) == *old(self),
    {
        Ok(())
    }

    /// Assert that specified action should yield canonical NaN.
    fn assert_return_canonical_nan(&mut self, line: u64, action: &Action) -> (r: Result<(), E>)
        default_ensures
            r == Ok::<(), E>(()),
            *final(self) == *old(self),
    {
        Ok(())
    }

    /// Assert that specified action should yield arithmetic NaN.
    fn assert_return_arithmetic_nan(&mut self, line: u64, action: &Action) -> (r: Result<(), E>)
        default_ensures
            r == Ok::<(), E>(()),
            *final(self) == *old(self),
    {
        Ok(())
    }

    /// Assert resource exhaustion.
    fn assert_exhaustion(&mut self, line: u64, action: &Action) -> (r: Result<(), E>)
        default_ensures
            r == Ok::<(), E>(()),
            *final(self) == *old(self),
    {
        Ok(())
    }

    /// Assert that performing specified action will result in a trap.
    fn assert_trap(&mut self, line: u64, action: &Action, text: &str) -> (r: Result<(), E>)
        default_ensures
            r == Ok::<(), E>(()),
            *final(self) == *old(self),
    {
        Ok(())
    }

    /// Assert that specified module is invalid.
    fn assert_invalid(&mut self, line: u64, wasm: &[u8], text: &str) -> (r: Result<(), E>)
        default_ensures
            r == Ok::<(), E>(()),
            *final(self) == *old(self),
    {
        Ok(())
    }

    /// Assert that specified module is malformed.
    fn assert_malformed(&mut self, line: u64, wasm: &[u8], text: &str) -> (r: Result<(), E>)
        default_ensures
            r == Ok::<(), E>(()),
            *final(self) == *old(self),
    {
        Ok(())
    }

    /// Assert that specified module is unlinkable.
    fn assert_unlinkable(&mut self, line: u64, wasm: &[u8], text: &str) -> (r: Result<(), E>)
        default_ensures
            r == Ok::<(), E>(()),
            *final(self) == *old(self),
    {
        Ok(())
    }

    /// Assert that specified module is uninstantiable.
    fn assert_uninstantiable(&mut self, line: u64, wasm: &[u8], text: &str) -> (r: Result<(), E>)
        default_ensures
            r == Ok::<(), E>(()),
            *final(self) == *old(self),
    {
        Ok(())
    }

    /// Register specified module (or last defined module) with specified name.
    fn register(&mut self, line: u64, name: Option<&str>, as_name: &str) -> (r: Result<(), E>)
        default_ensures
            r == Ok::<(), E>(()),
            *final(self) == *old(self),
    {
        Ok(())
    }

    /// Perform specified action.
    fn perform_action(&mut self, line: u64, action: &Action) -> (r: Result<(), E>)
        default_ensures
            r == Ok::<(), E>(()),
            *final(self) == *old(self),
    {
        Ok(())
    }
}

/// What a callback's answer becomes: success stays success, and a failure
/// is wrapped as the user's own.
pub fn wrap_user<E>(outcome: Result<(), E>) -> (r: Result<(), Error<E>>)
    ensures
        r == wrapped(outcome),
{
    match outcome {
        Ok(()) => Ok(()),
        Err(e) => Err(Error::User(e)),
    }
}

/// What an [`Error`] holds, as mathematical text.
pub enum RunErrorView<E> {
    IoError(Seq<char>),
    WabtError(crate::error::ErrorKindView),
    MalformedIntermediateForm(Seq<char>),
    ValueDecode(ValueDecodeErrorView),
    Other(Seq<char>),
    User(E),
}

impl<E> View for Error<E> {
    type V = RunErrorView<E>;

    open spec fn view(&self) -> RunErrorView<E> {
        match *self {
            Error::IoError(msg) => RunErrorView::IoError(msg@),
            Error::WabtError(e) => RunErrorView::WabtError(e@),
            Error::MalformedIntermediateForm(fragment) => RunErrorView::MalformedIntermediateForm(
                fragment@,
            ),
            Error::ValueDecode(e) => RunErrorView::ValueDecode(e@),
            Error::Other(msg) => RunErrorView::Other(msg@),
            Error::User(e) => RunErrorView::User(e),
        }
    }
}

/// A decoding error as the run reports it: the same error, without the
/// line it may have been given.
pub open spec fn run_error<E>(e: ErrorView) -> RunErrorView<E>
    decreases e,
{
    match e {
        ErrorView::IoError(msg) => RunErrorView::IoError(msg),
        ErrorView::WabtError(inner) => RunErrorView::WabtError(inner),
        ErrorView::MalformedIntermediateForm(fragment) => RunErrorView::MalformedIntermediateForm(
            fragment,
        ),
        ErrorView::ValueDecode(inner) => RunErrorView::ValueDecode(inner),
        ErrorView::Other(msg) => RunErrorView::Other(msg),
        ErrorView::WithLineInfo { error, .. } => run_error(*error),
    }
}

/// Turns a decoding error into the run's error.
pub fn from_script_error<E>(e: crate::script::Error) -> (r: Error<E>)
    ensures
        r@ == run_error::<E>(e@),
    decreases e,
{
    match e {
        crate::script::Error::IoError(msg) => Error::IoError(msg),
        crate::script::Error::WabtError(inner) => Error::WabtError(inner),
        crate::script::Error::MalformedIntermediateForm(fragment) => {
            Error::MalformedIntermediateForm(fragment)
        },
        crate::script::Error::ValueDecode(inner) => Error::ValueDecode(inner),
        crate::script::Error::Other(msg) => Error::Other(msg),
        crate::script::Error::WithLineInfo { line: _, error } => from_script_error(*error),
    }
}

/// The module store a single command is decoded against: the binary that
/// was read for it, under the file name the command gives; empty where the
/// command names no file or no binary was read.
pub open spec fn step_store(cmd: json::CommandView, wasm: Option<Seq<u8>>) -> Map<
    Seq<char>,
    Seq<u8>,
> {
    match (cmd.filename(), wasm) {
        (Some(filename), Some(bytes)) => Map::empty().insert(filename, bytes),
        _ => Map::empty(),
    }
}

/// What a command decodes to in a run, given the binary read for it.
pub open spec fn decoded_step<E>(cmd: json::CommandView, wasm: Option<Seq<u8>>) -> Result<
    CommandKindView<QuietF32, QuietF64>,
    RunErrorView<E>,
> {
    match normalized_kind::<QuietF32, QuietF64>(cmd, step_store(cmd, wasm)) {
        Ok(kind) => Ok(kind),
        Err(e) => Err(run_error(e)),
    }
}

/// The generated file a command refers to, where it refers to one.
pub fn module_filename(command: &json::Command) -> (r: Option<&String>)
    ensures
        json::opt_text_ref(r) == command@.filename(),
{
    match command {
        json::Command::Module { filename, .. } => Some(filename),
        json::Command::AssertInvalid { filename, .. } => Some(filename),
        json::Command::AssertMalformed { filename, .. } => Some(filename),
        json::Command::AssertUninstantiable { filename, .. } => Some(filename),
        json::Command::AssertUnlinkable { filename, .. } => Some(filename),
        _ => None,
    }
}

/// Decodes one command of a run, given the binary read for it.
pub fn decode_step<E>(command: &json::Command, wasm: Option<Vec<u8>>) -> (r: Result<
    CommandKind<QuietF32, QuietF64>,
    Error<E>,
>)
    ensures
        match decoded_step::<E>(command@, crate::binary::opt_bytes(wasm)) {
            Ok(kind) => r is Ok && r->Ok_0@ == kind,
            Err(e) => r is Err && r->Err_0@ == e,
        },
{
    let mut store = ModuleStore::new();
    match (module_filename(command), wasm) {
        (Some(filename), Some(bytes)) => {
            store.insert(filename.clone(), bytes);
        },
        _ => {},
    }
    match normalize_kind::<QuietF32, QuietF64>(command, &store) {
        Ok(kind) => Ok(kind),
        Err(e) => Err(from_script_error(e)),
    }
}

/// What a callback's answer becomes in a run: success stays success, and
/// a failure is the user's own.
pub open spec fn wrapped<E>(outcome: Result<(), E>) -> Result<(), Error<E>> {
    match outcome {
        Ok(()) => Ok(()),
        Err(e) => Err(Error::User(e)),
    }
}

/// Whether `outcome` is an answer of the visitor behind `w` to the
/// beginning of the script `source`: an answer that its callback for the
/// beginning may give when it is called with that name.
pub open spec fn begins<E, V: Visitor<E>>(
    w: &mut V,
    source: Seq<char>,
    outcome: Result<(), E>,
) -> bool {
    exists|name: &str|
        name@ == source && #[trigger] call_ensures(V::begin_spec, (w, name), outcome)
}

/// Whether `outcome` is an answer of the visitor behind `w` to a command
/// of kind `kind` at `line`: an answer that the callback for that kind may
/// give when it is called with the line and with what the command holds.
pub open spec fn answers<E, V: Visitor<E>>(
    w: &mut V,
    line: u64,
    kind: CommandKindView<QuietF32, QuietF64>,
    outcome: Result<(), E>,
) -> bool {
    match kind {
        CommandKindView::Module { module, name } => exists|wasm: &[u8], n: Option<String>|
            wasm@ == module && json::opt_text(n) == name && #[trigger] call_ensures(
                V::module,
                (w, line, wasm, n),
                outcome,
            ),
        CommandKindView::AssertReturn { action, expected } => exists|a: &Action, vals: &[Value]|
            a@ == action && vals@ == expected && #[trigger] call_ensures(
                V::assert_return,
                (w, line, a, vals),
                outcome,
            ),
        CommandKindView::AssertReturnCanonicalNan { action } => exists|a: &Action|
            a@ == action && #[trigger] call_ensures(
                V::assert_return_canonical_nan,
                (w, line, a),
                outcome,
            ),
        CommandKindView::AssertReturnArithmeticNan { action } => exists|a: &Action|
            a@ == action && #[trigger] call_ensures(
                V::assert_return_arithmetic_nan,
                (w, line, a),
                outcome,
            ),
        CommandKindView::AssertExhaustion { action } => exists|a: &Action|
            a@ == action && #[trigger] call_ensures(V::assert_exhaustion, (w, line, a), outcome),
        CommandKindView::AssertTrap { action, message } => exists|a: &Action, text: &str|
            a@ == action && text@ == message && #[trigger] call_ensures(
                V::assert_trap,
                (w, line, a, text),
                outcome,
            ),
        CommandKindView::AssertInvalid { module, message } => exists|wasm: &[u8], text: &str|
            wasm@ == module && text@ == message && #[trigger] call_ensures(
                V::assert_invalid,
                (w, line, wasm, text),
                outcome,
            ),
        CommandKindView::AssertMalformed { module, message } => exists|wasm: &[u8], text: &str|
            wasm@ == module && text@ == message && #[trigger] call_ensures(
                V::assert_malformed,
                (w, line, wasm, text),
                outcome,
            ),
        CommandKindView::AssertUnlinkable { module, message } => exists|wasm: &[u8], text: &str|
            wasm@ == module && text@ == message && #[trigger] call_ensures(
                V::assert_unlinkable,
                (w, line, wasm, text),
                outcome,
            ),
        CommandKindView::AssertUninstantiable { module, message } => exists|
            wasm: &[u8],
            text: &str,
        |
            wasm@ == module && text@ == message && #[trigger] call_ensures(
                V::assert_uninstantiable,
                (w, line, wasm, text),
                outcome,
            ),
        CommandKindView::Register { name, as_name } => exists|n: Option<&str>, text: &str|
            opt_str(n) == name && text@ == as_name && #[trigger] call_ensures(
                V::register,
                (w, line, n, text),
                outcome,
            ),
        CommandKindView::PerformAction(action) => exists|a: &Action|
            a@ == action && #[trigger] call_ensures(V::perform_action, (w, line, a), outcome),
    }
}

/// Hands a decoded command to the callback of its kind: the callback is
/// called once, on the visitor as it stands, with the command's line and
/// what the command holds. Its answer comes back, a failure wrapped as the
/// user's own, and the visitor is left as the callback left it.
pub fn dispatch<E, V: Visitor<E>>(line: u64, kind: &CommandKind<QuietF32, QuietF64>, v: &mut V) -> (r:
    Result<(), Error<E>>)
    ensures
        exists|w: &mut V, outcome: Result<(), E>|
            *w == *old(v) && *final(w) == *final(v) && #[trigger] answers(w, line, kind@, outcome)
                && r == wrapped(outcome),
{
    match kind {
        CommandKind::Module { module, name } => {
            let wasm = module.as_slice();
            let n = clone_name(name);
            let outcome = v.module(line, wasm, n);
            proof {
                let w = choose|w: &mut V|
                    *w == *old(v) && *final(w) == *v && call_ensures(
                        V::module,
                        (w, line, wasm, n),
                        outcome,
                    );
                assert(answers(w, line, kind@, outcome));
            }
            wrap_user(outcome)
        },
        CommandKind::AssertReturn { action, expected } => {
            let vals = expected.as_slice();
            let outcome = v.assert_return(line, action, vals);
            proof {
                let w = choose|w: &mut V|
                    *w == *old(v) && *final(w) == *v && call_ensures(
                        V::assert_return,
                        (w, line, action, vals),
                        outcome,
                    );
                assert(answers(w, line, kind@, outcome));
            }
            wrap_user(outcome)
        },
        CommandKind::AssertReturnCanonicalNan { action } => {
            let outcome = v.assert_return_canonical_nan(line, action);
            proof {
                let w = choose|w: &mut V|
                    *w == *old(v) && *final(w) == *v && call_ensures(
                        V::assert_return_canonical_nan,
                        (w, line, action),
                        outcome,
                    );
                assert(answers(w, line, kind@, outcome));
            }
            wrap_user(outcome)
        },
        CommandKind::AssertReturnArithmeticNan { action } => {
            let outcome = v.assert_return_arithmetic_nan(line, action);
            proof {
                let w = choose|w: &mut V|
                    *w == *old(v) && *final(w) == *v && call_ensures(
                        V::assert_return_arithmetic_nan,
                        (w, line, action),
                        outcome,
                    );
                assert(answers(w, line, kind@, outcome));
            }
            wrap_user(outcome)
        },
        CommandKind::AssertExhaustion { action } => {
            let outcome = v.assert_exhaustion(line, action);
            proof {
                let w = choose|w: &mut V|
                    *w == *old(v) && *final(w) == *v && call_ensures(
                        V::assert_exhaustion,
                        (w, line, action),
                        outcome,
                    );
                assert(answers(w, line, kind@, outcome));
            }
            wrap_user(outcome)
        },
        CommandKind::AssertTrap { action, message } => {
            let text = message.as_str();
            let outcome = v.assert_trap(line, action, text);
            proof {
                let w = choose|w: &mut V|
                    *w == *old(v) && *final(w) == *v && call_ensures(
                        V::assert_trap,
                        (w, line, action, text),
                        outcome,
                    );
                assert(answers(w, line, kind@, outcome));
            }
            wrap_user(outcome)
        },
        CommandKind::AssertInvalid { module, message } => {
            let wasm = module.as_slice();
            let text = message.as_str();
            let outcome = v.assert_invalid(line, wasm, text);
            proof {
                let w = choose|w: &mut V|
                    *w == *old(v) && *final(w) == *v && call_ensures(
                        V::assert_invalid,
                        (w, line, wasm, text),
                        outcome,
                    );
                assert(answers(w, line, kind@, outcome));
            }
            wrap_user(outcome)
        },
        CommandKind::AssertMalformed { module, message } => {
            let wasm = module.as_slice();
            let text = message.as_str();
            let outcome = v.assert_malformed(line, wasm, text);
            proof {
                let w = choose|w: &mut V|
                    *w == *old(v) && *final(w) == *v && call_ensures(
                        V::assert_malformed,
                        (w, line, wasm, text),
                        outcome,
                    );
                assert(answers(w, line, kind@, outcome));
            }
            wrap_user(outcome)
        },
        CommandKind::AssertUnlinkable { module, message } => {
            let wasm = module.as_slice();
            let text = message.as_str();
            let outcome = v.assert_unlinkable(line, wasm, text);
            proof {
                let w = choose|w: &mut V|
                    *w == *old(v) && *final(w) == *v && call_ensures(
                        V::assert_unlinkable,
                        (w, line, wasm, text),
                        outcome,
                    );
                assert(answers(w, line, kind@, outcome));
            }
            wrap_user(outcome)
        },
        CommandKind::AssertUninstantiable { module, message } => {
            let wasm = module.as_slice();
            let text = message.as_str();
            let outcome = v.assert_uninstantiable(line, wasm, text);
            proof {
                let w = choose|w: &mut V|
                    *w == *old(v) && *final(w) == *v && call_ensures(
                        V::assert_uninstantiable,
                        (w, line, wasm, text),
                        outcome,
                    );
                assert(answers(w, line, kind@, outcome));
            }
            wrap_user(outcome)
        },
        CommandKind::Register { name, as_name } => {
            let n: Option<&str> = match name {
                Some(text) => Some(text.as_str()),
                None => None,
            };
            let text = as_name.as_str();
            let outcome = v.register(line, n, text);
            proof {
                let w = choose|w: &mut V|
                    *w == *old(v) && *final(w) == *v && call_ensures(
                        V::register,
                        (w, line, n, text),
                        outcome,
                    );
                assert(answers(w, line, kind@, outcome));
            }
            wrap_user(outcome)
        },
        CommandKind::PerformAction(action) => {
            let outcome = v.perform_action(line, action);
            proof {
                let w = choose|w: &mut V|
                    *w == *old(v) && *final(w) == *v && call_ensures(
                        V::perform_action,
                        (w, line, action),
                        outcome,
                    );
                assert(answers(w, line, kind@, outcome));
            }
            wrap_user(outcome)
        },
    }
}

/// A run of one script against a visitor: the script's commands and how
/// many of them have been visited. Whoever drives the run reads the module
/// binary that the pending command names, if it names one, and hands it
/// over; the run decodes the command and calls the visitor. The first
/// failure of any kind ends the run.
pub struct BatchRun {
    source_filename: String,
    commands: Vec<json::Command>,
    cursor: usize,
}

impl BatchRun {
    #[verifier::type_invariant]
    spec fn cursor_in_range(self) -> bool {
        self.cursor <= self.commands@.len()
    }

    /// The script's commands in intermediate form, in source order.
    pub closed spec fn commands(self) -> Seq<json::CommandView> {
        json::commands_view(self.commands@)
    }

    /// How many commands are behind the run: visited, or given up.
    pub closed spec fn cursor(self) -> nat {
        self.cursor as nat
    }

    /// The name of the script the commands were compiled from.
    pub closed spec fn source(self) -> Seq<char> {
        self.source_filename@
    }

    /// Whether the run is over: every command visited, or a failure met.
    pub open spec fn finished(self) -> bool {
        self.cursor() == self.commands().len()
    }

    /// A run over the commands of `spec`, none of them visited.
    pub fn new(spec: json::Spec) -> (r: BatchRun)
        ensures
            r.commands() == json::commands_view(spec.commands@),
            r.source() == spec.source_filename@,
            r.cursor() == 0,
    {
        BatchRun { source_filename: spec.source_filename, commands: spec.commands, cursor: 0 }
    }

    /// Whether the run is over.
    pub fn is_finished(&self) -> (r: bool)
        ensures
            r == self.finished(),
            self.cursor() <= self.commands().len(),
    {
        proof {
            use_type_invariant(self);
        }
        self.cursor >= self.commands.len()
    }

    /// The file whose binary the pending command needs, if the run is not
    /// over and the command names one.
    pub fn pending_module(&self) -> (r: Option<&String>)
        ensures
            self.finished() ==> r is None,
            !self.finished() ==> self.cursor() < self.commands().len() && json::opt_text_ref(r)
                == self.commands()[self.cursor() as int].filename(),
    {
        proof {
            use_type_invariant(self);
        }
        if self.cursor >= self.commands.len() {
            None
        } else {
            module_filename(&self.commands[self.cursor])
        }
    }

    /// Tells the visitor that the script begins: its callback for the
    /// beginning is called once, on the visitor as it stands, with the
    /// name of the script. Its answer comes back, a failure wrapped as the
    /// user's own. A failure ends the run before any command is visited;
    /// otherwise the run stays where it is.
    pub fn begin<E, V: Visitor<E>>(&mut self, v: &mut V) -> (r: Result<(), Error<E>>)
        ensures
            final(self).commands() == old(self).commands(),
            final(self).source() == old(self).source(),
            exists|w: &mut V, outcome: Result<(), E>|
                *w == *old(v) && *final(w) == *final(v) && #[trigger] begins(
                    w,
                    old(self).source(),
                    outcome,
                ) && r == wrapped(outcome),
            r is Ok ==> final(self).cursor() == old(self).cursor(),
            r is Err ==> final(self).finished(),
    {
        let name = self.source_filename.as_str();
        let outcome = v.begin_spec(name);
        proof {
            let w = choose|w: &mut V|
                *w == *old(v) && *final(w) == *v && call_ensures(V::begin_spec, (w, name), outcome);
            assert(begins(w, old(self).source(), outcome));
        }
        match wrap_user(outcome) {
            Ok(()) => Ok(()),
            Err(e) => {
                self.cursor = self.commands.len();
                Err(e)
            },
        }
    }

    /// Visits the pending command: decodes it, with `wasm` as the binary
    /// read for it, and calls the visitor's callback for its kind.
    ///
    /// A command that does not decode fails with its decoding error and no
    /// callback is called: the visitor stays as it is. A command that
    /// decodes goes to the callback of its kind, once, with the command's
    /// line and what the command holds; the callback's answer comes back, a
    /// failure wrapped as the user's own. Either failure ends the run: no
    /// later command is visited. On a finished run nothing happens.
    pub fn visit_next<E, V: Visitor<E>>(&mut self, wasm: Option<Vec<u8>>, v: &mut V) -> (r: Result<
        (),
        Error<E>,
    >)
        ensures
            final(self).commands() == old(self).commands(),
            final(self).source() == old(self).source(),
            old(self).finished() ==> r is Ok && final(self).cursor() == old(self).cursor()
                && *final(v) == *old(v),
            !old(self).finished() ==> {
                &&& old(self).cursor() < old(self).commands().len()
                &&& r is Ok ==> final(self).cursor() == old(self).cursor() + 1
                &&& r is Err ==> final(self).finished()
                &&& match decoded_step::<E>(
                    old(self).commands()[old(self).cursor() as int],
                    crate::binary::opt_bytes(wasm),
                ) {
                    Ok(kind) => exists|w: &mut V, outcome: Result<(), E>|
                        *w == *old(v) && *final(w) == *final(v) && #[trigger] answers(
                            w,
                            old(self).commands()[old(self).cursor() as int].line(),
                            kind,
                            outcome,
                        ) && r == wrapped(outcome),
                    Err(e) => r is Err && r->Err_0@ == e && *final(v) == *old(v),
                }
            },
    {
        proof {
            use_type_invariant(&*self);
        }
        if self.cursor >= self.commands.len() {
            return Ok(());
        }
        let index = self.cursor;
        let line = command_line(&self.commands[index]);
        let outcome = match decode_step::<E>(&self.commands[index], wasm) {
            Ok(kind) => dispatch(line, &kind, v),
            Err(e) => Err(e),
        };
        match outcome {
            Ok(()) => {
                self.cursor = index + 1;
                Ok(())
            },
            Err(e) => {
                self.cursor = self.commands.len();
                Err(e)
            },
        }
    }
}

/// Convert u32 to a 32-bit float safely, masking out sNAN
pub fn f32_from_bits(v: u32) -> (r: QuietF32)
    ensures
        r == QuietF32::of_bits(v),
{
    QuietF32::from_bits(v)
}

/// Convert u64 to a 64-bit float safely, masking out sNAN
pub fn f64_from_bits(v: u64) -> (r: QuietF64)
    ensures
        r == QuietF64::of_bits(v),
{
    QuietF64::from_bits(v)
}

/// Decodes one number of the intermediate form, quieting signaling NaNs.
pub fn runtime_value(test_val: &json::RuntimeValue) -> (r: Result<Value, ValueDecodeError>)
    ensures
        match decoded_value::<QuietF32, QuietF64>(test_val@) {
            Ok(v) => r == Ok::<Value, ValueDecodeError>(v),
            Err(e) => r is Err && r->Err_0@ == e,
        },
{
    crate::script::parse_value::<QuietF32, QuietF64>(test_val)
}

/// Decodes a list of numbers of the intermediate form, in order.
pub fn runtime_values(test_vals: &Vec<json::RuntimeValue>) -> (r: Result<
    Vec<Value>,
    ValueDecodeError,
>)
    ensures
        match decoded_values::<QuietF32, QuietF64>(json::values_view(test_vals@)) {
            Ok(vals) => r is Ok && r->Ok_0@ == vals,
            Err(e) => r is Err && r->Err_0@ == e,
        },
{
    crate::script::parse_value_list::<QuietF32, QuietF64>(test_vals)
}

/// Decodes an action of the intermediate form, quieting signaling NaNs.
pub fn parse_action<E>(test_action: &json::Action) -> (r: Result<Action, Error<E>>)
    ensures
        match decoded_action::<QuietF32, QuietF64>(test_action@) {
            Ok(a) => r is Ok && r->Ok_0@ == a,
            Err(e) => r is Err && r->Err_0@ == run_error::<E>(e),
        },
{
    match crate::script::parse_action::<QuietF32, QuietF64>(test_action) {
        Ok(action) => Ok(action),
        Err(e) => Err(from_script_error(e)),
    }
}

/// The names a run works under, all derived from the script's file name.
#[derive(Debug, PartialEq, Eq)]
pub struct RunNames {
    /// The script's file name, extension included.
    pub test_filename: String,
    /// The file name without the `.wast` extension.
    pub test_name: String,
    /// The name of the temporary directory the artifacts are collected in.
    pub temp_dir_name: String,
    /// The name of the file the intermediate form is written to.
    pub json_file_name: String,
}

/// What is reported of a path that does not exist.
pub open spec fn missing_path_message(path: Seq<char>) -> Seq<char> {
    "Path "@ + path + " doesn't exists"@
}

/// What is reported of a path without the script extension.
pub open spec fn bad_extension_message(path: Seq<char>) -> Seq<char> {
    "Provided "@ + path + " should have .wast extension"@
}

/// Whether a script at a path can be run: the path exists, its extension
/// is `wast`, and its last component is text that ends in `.wast`.
pub open spec fn runnable(
    present: bool,
    extension: Option<Seq<char>>,
    file_name: Option<Seq<char>>,
) -> bool {
    &&& present
    &&& extension == Some(seq!['w', 'a', 's', 't'])
    &&& file_name is Some
    &&& has_suffix(file_name->Some_0, crate::script::script_suffix())
}

/// The names a run of the script `file_name` works under.
pub open spec fn run_names_ok(names: RunNames, file_name: Seq<char>) -> bool {
    let stem = file_name.subrange(0, file_name.len() - 5);
    &&& names.test_filename@ == file_name
    &&& names.test_name@ == stem
    &&& names.temp_dir_name@ == "spec-testsuite-"@ + stem
    &&& names.json_file_name@ == stem + ".json"@
}

/// Decides whether a script can be run and under which names.
///
/// `path` is the path as text, `present` whether something is there,
/// `extension` and `file_name` the extension and the last component of the
/// path where it has them. A path that does not exist is reported first,
/// then one that is no `.wast` file.
pub fn plan_run<E>(
    path: &str,
    present: bool,
    extension: Option<&str>,
    file_name: Option<&str>,
) -> (r: Result<RunNames, Error<E>>)
    ensures
        r is Ok <==> runnable(present, opt_str(extension), opt_str(file_name)),
        r is Ok ==> run_names_ok(r->Ok_0, file_name->Some_0@),
        r is Err ==> r->Err_0@ == if !present {
            RunErrorView::<E>::Other(missing_path_message(path@))
        } else {
            RunErrorView::<E>::Other(bad_extension_message(path@))
        },
{
    proof {
        reveal_strlit("wast");
        reveal_strlit(".wast");
        assert("wast"@ =~= seq!['w', 'a', 's', 't']);
        assert(".wast"@ =~= crate::script::script_suffix());
    }
    if !present {
        let mut message = String::from_str("Path ");
        message.append(path);
        message.append(" doesn't exists");
        return Err(Error::Other(message));
    }
    let has_extension = match extension {
        Some(ext) => same_text(ext, "wast"),
        None => false,
    };
    let name: Option<&str> = match file_name {
        Some(name) => if has_extension && ends_with(name, ".wast") {
            Some(name)
        } else {
            None
        },
        None => None,
    };
    match name {
        Some(name) => {
            let n: usize = name.unicode_len();
            let stem: &str = name.substring_char(0, n - 5);
            let mut temp_dir_name = String::from_str("spec-testsuite-");
            temp_dir_name.append(stem);
            let mut json_file_name = String::from_str(stem);
            json_file_name.append(".json");
            Ok(
                RunNames {
                    test_filename: String::from_str(name),
                    test_name: String::from_str(stem),
                    temp_dir_name,
                    json_file_name,
                },
            )
        },
        None => {
            let mut message = String::from_str("Provided ");
            message.append(path);
            message.append(" should have .wast extension");
            Err(Error::Other(message))
        },
    }
}

/// The text of an optional string slice.
pub open spec fn opt_str(s: Option<&str>) -> Option<Seq<char>> {
    match s {
        Some(t) => Some(t@),
        None => None,
    }
}

/// Begins the compilation of a script for a run: parse, validate, write
/// the intermediate form and the binaries.
pub fn wast2json() -> (r: crate::convert::Conversion)
    ensures
        r.steps() == crate::convert::script_steps(false),
        r.taken() == 0,
{
    crate::convert::compile_script(false)
}

} // verus!

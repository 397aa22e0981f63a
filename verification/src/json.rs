//! The intermediate form of a script: commands, actions and values as the
//! script compiler describes them, before any decoding.

use vstd::prelude::*;

verus! {

/// A number as the intermediate form writes it: a type tag and the decimal
/// text of the value's bit pattern.
#[derive(Clone, Debug, PartialEq, Eq)]
pub struct RuntimeValue {
    /// One of `i32`, `i64`, `f32`, `f64`.
    pub value_type: String,
    /// The bit pattern, as an unsigned decimal number.
    pub value: String,
}

/// What a [`RuntimeValue`] holds, as mathematical text.
pub struct RuntimeValueView {
    pub value_type: Seq<char>,
    pub value: Seq<char>,
}

impl View for RuntimeValue {
    type V = RuntimeValueView;

    open spec fn view(&self) -> RuntimeValueView {
        RuntimeValueView { value_type: self.value_type@, value: self.value@ }
    }
}

/// The text of an optional string.
pub open spec fn opt_text(s: Option<String>) -> Option<Seq<char>> {
    match s {
        Some(t) => Some(t@),
        None => None,
    }
}

/// The text of an optional borrowed string.
pub open spec fn opt_text_ref(s: Option<&String>) -> Option<Seq<char>> {
    match s {
        Some(t) => Some(t@),
        None => None,
    }
}

/// The views of a list of values, in order.
pub open spec fn values_view(vals: Seq<RuntimeValue>) -> Seq<RuntimeValueView> {
    Seq::new(vals.len(), |i: int| vals[i]@)
}

/// An action as the intermediate form writes it.
#[derive(Clone, Debug, PartialEq, Eq)]
pub enum Action {
    /// Call an exported function.
    Invoke { module: Option<String>, field: String, args: Vec<RuntimeValue> },
    /// Read an exported global.
    Get { module: Option<String>, field: String },
}

/// What an [`Action`] holds, as mathematical text.
pub enum ActionView {
    Invoke { module: Option<Seq<char>>, field: Seq<char>, args: Seq<RuntimeValueView> },
    Get { module: Option<Seq<char>>, field: Seq<char> },
}

impl View for Action {
    type V = ActionView;

    open spec fn view(&self) -> ActionView {
        match *self {
            Action::Invoke { module, field, args } => ActionView::Invoke {
                module: opt_text(module),
                field: field@,
                args: values_view(args@),
            },
            Action::Get { module, field } => ActionView::Get {
                module: opt_text(module),
                field: field@,
            },
        }
    }
}

/// One top-level form of a script as the intermediate form writes it.
#[derive(Clone, Debug, PartialEq, Eq)]
pub enum Command {
    Module { line: u64, name: Option<String>, filename: String },
    AssertReturn { line: u64, action: Action, expected: Vec<RuntimeValue> },
    AssertReturnCanonicalNan { line: u64, action: Action },
    AssertReturnArithmeticNan { line: u64, action: Action },
    AssertTrap { line: u64, action: Action, text: String },
    AssertInvalid { line: u64, filename: String, text: String },
    AssertMalformed { line: u64, filename: String, text: String },
    AssertUninstantiable { line: u64, filename: String, text: String },
    AssertExhaustion { line: u64, action: Action },
    AssertUnlinkable { line: u64, filename: String, text: String },
    Register { line: u64, name: Option<String>, as_name: String },
    Action { line: u64, action: Action },
}

/// What a [`Command`] holds, as mathematical text.
pub enum CommandView {
    Module { line: u64, name: Option<Seq<char>>, filename: Seq<char> },
    AssertReturn { line: u64, action: ActionView, expected: Seq<RuntimeValueView> },
    AssertReturnCanonicalNan { line: u64, action: ActionView },
    AssertReturnArithmeticNan { line: u64, action: ActionView },
    AssertTrap { line: u64, action: ActionView, text: Seq<char> },
    AssertInvalid { line: u64, filename: Seq<char>, text: Seq<char> },
    AssertMalformed { line: u64, filename: Seq<char>, text: Seq<char> },
    AssertUninstantiable { line: u64, filename: Seq<char>, text: Seq<char> },
    AssertExhaustion { line: u64, action: ActionView },
    AssertUnlinkable { line: u64, filename: Seq<char>, text: Seq<char> },
    Register { line: u64, name: Option<Seq<char>>, as_name: Seq<char> },
    Action { line: u64, action: ActionView },
}

impl View for Command {
    type V = CommandView;

    open spec fn view(&self) -> CommandView {
        match *self {
            Command::Module { line, name, filename } => CommandView::Module {
                line,
                name: opt_text(name),
                filename: filename@,
            },
            Command::AssertReturn { line, action, expected } => CommandView::AssertReturn {
                line,
                action: action@,
                expected: values_view(expected@),
            },
            Command::AssertReturnCanonicalNan { line, action } => {
                CommandView::AssertReturnCanonicalNan { line, action: action@ }
            },
            Command::AssertReturnArithmeticNan { line, action } => {
                CommandView::AssertReturnArithmeticNan { line, action: action@ }
            },
            Command::AssertTrap { line, action, text } => CommandView::AssertTrap {
                line,
                action: action@,
                text: text@,
            },
            Command::AssertInvalid { line, filename, text } => CommandView::AssertInvalid {
                line,
                filename: filename@,
                text: text@,
            },
            Command::AssertMalformed { line, filename, text } => CommandView::AssertMalformed {
                line,
                filename: filename@,
                text: text@,
            },
            Command::AssertUninstantiable { line, filename, text } => {
                CommandView::AssertUninstantiable { line, filename: filename@, text: text@ }
            },
            Command::AssertExhaustion { line, action } => CommandView::AssertExhaustion {
                line,
                action: action@,
            },
            Command::AssertUnlinkable { line, filename, text } => CommandView::AssertUnlinkable {
                line,
                filename: filename@,
                text: text@,
            },
            Command::Register { line, name, as_name } => CommandView::Register {
                line,
                name: opt_text(name),
                as_name: as_name@,
            },
            Command::Action { line, action } => CommandView::Action { line, action: action@ },
        }
    }
}

impl CommandView {
    /// The source line the form starts on.
    pub open spec fn line(self) -> u64 {
        match self {
            CommandView::Module { line, .. } => line,
            CommandView::AssertReturn { line, .. } => line,
            CommandView::AssertReturnCanonicalNan { line, .. } => line,
            CommandView::AssertReturnArithmeticNan { line, .. } => line,
            CommandView::AssertTrap { line, .. } => line,
            CommandView::AssertInvalid { line, .. } => line,
            CommandView::AssertMalformed { line, .. } => line,
            CommandView::AssertUninstantiable { line, .. } => line,
            CommandView::AssertExhaustion { line, .. } => line,
            CommandView::AssertUnlinkable { line, .. } => line,
            CommandView::Register { line, .. } => line,
            CommandView::Action { line, .. } => line,
        }
    }

    /// The generated file the form refers to, where it refers to one.
    pub open spec fn filename(self) -> Option<Seq<char>> {
        match self {
            CommandView::Module { filename, .. } => Some(filename),
            CommandView::AssertInvalid { filename, .. } => Some(filename),
            CommandView::AssertMalformed { filename, .. } => Some(filename),
            CommandView::AssertUninstantiable { filename, .. } => Some(filename),
            CommandView::AssertUnlinkable { filename, .. } => Some(filename),
            _ => None,
        }
    }
}

/// A whole script in intermediate form.
#[derive(Clone, Debug, PartialEq, Eq)]
pub struct Spec {
    /// Name of the script the commands were compiled from.
    pub source_filename: String,
    /// The script's top-level forms, in source order.
    pub commands: Vec<Command>,
}

/// The views of a list of commands, in order.
pub open spec fn commands_view(cmds: Seq<Command>) -> Seq<CommandView> {
    Seq::new(cmds.len(), |i: int| cmds[i]@)
}

} // verus!

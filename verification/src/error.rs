//! Errors reported by the module-conversion toolkit.

use vstd::prelude::*;

verus! {

/// ErrorKind describes an error condition from a wasm module operation, as
/// well as the corresponding error message from the toolkit, if any.
#[derive(Debug, PartialEq, Eq)]
pub enum ErrorKind {
    /// Result contained an unexpected null byte.
    Nul,
    /// Error deserializing binary wasm.
    Deserialize(String),
    /// Error parsing textual wasm.
    Parse(String),
    /// Error serializing a wasm module to text.
    WriteText,
    /// Converting a wasm binary module to text yielded non-utf8 characters.
    NonUtf8Result,
    /// Error serializing a wasm module to binary.
    WriteBinary,
    /// Error resolving names in the wasm module.
    ResolveNames(String),
    /// Error validating the wasm module.
    Validate(String),
}

/// What an [`ErrorKind`] holds, as mathematical text.
pub enum ErrorKindView {
    Nul,
    Deserialize(Seq<char>),
    Parse(Seq<char>),
    WriteText,
    NonUtf8Result,
    WriteBinary,
    ResolveNames(Seq<char>),
    Validate(Seq<char>),
}

impl View for ErrorKind {
    type V = ErrorKindView;

    open spec fn view(&self) -> ErrorKindView {
        match *self {
            ErrorKind::Nul => ErrorKindView::Nul,
            ErrorKind::Deserialize(msg) => ErrorKindView::Deserialize(msg@),
            ErrorKind::Parse(msg) => ErrorKindView::Parse(msg@),
            ErrorKind::WriteText => ErrorKindView::WriteText,
            ErrorKind::NonUtf8Result => ErrorKindView::NonUtf8Result,
            ErrorKind::WriteBinary => ErrorKindView::WriteBinary,
            ErrorKind::ResolveNames(msg) => ErrorKindView::ResolveNames(msg@),
            ErrorKind::Validate(msg) => ErrorKindView::Validate(msg@),
        }
    }
}

/// A structure to represent errors coming out from the toolkit.
#[derive(Debug, PartialEq, Eq)]
pub struct Error(ErrorKind);

impl View for Error {
    type V = ErrorKindView;

    closed spec fn view(&self) -> ErrorKindView {
        self.0@
    }
}

/// The fixed description of each kind of error.
pub open spec fn kind_description(kind: ErrorKindView) -> Seq<char> {
    match kind {
        ErrorKindView::Nul => "string contained nul-byte"@,
        ErrorKindView::Deserialize(_) => "failed to deserialize"@,
        ErrorKindView::Parse(_) => "failed to parse"@,
        ErrorKindView::WriteText => "failed to write text"@,
        ErrorKindView::NonUtf8Result => "result is not a valid utf8"@,
        ErrorKindView::WriteBinary => "failed to write binary"@,
        ErrorKindView::ResolveNames(_) => "failed to resolve names"@,
        ErrorKindView::Validate(_) => "failed to validate"@,
    }
}

impl Error {
    /// An error of the given kind.
    pub fn new(kind: ErrorKind) -> (r: Error)
        ensures
            r@ == kind@,
    {
        Error(kind)
    }

    /// The kind of this error.
    pub fn kind(&self) -> (r: &ErrorKind)
        ensures
            r@ == self@,
    {
        &self.0
    }

    /// Gives the kind back.
    pub fn into_kind(self) -> (r: ErrorKind)
        ensures
            r@ == self@,
    {
        self.0
    }

    /// A short fixed description of what went wrong.
    pub fn description(&self) -> (r: &'static str)
        ensures
            r@ == kind_description(self@),
    {
        match self.0 {
            ErrorKind::Nul => "string contained nul-byte",
            ErrorKind::Deserialize(_) => "failed to deserialize",
            ErrorKind::Parse(_) => "failed to parse",
            ErrorKind::WriteText => "failed to write text",
            ErrorKind::NonUtf8Result => "result is not a valid utf8",
            ErrorKind::WriteBinary => "failed to write binary",
            ErrorKind::ResolveNames(_) => "failed to resolve names",
            ErrorKind::Validate(_) => "failed to validate",
        }
    }
}

} // verus!

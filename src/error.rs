use vstd::prelude::*;

verus! {

/// What went wrong.
#[derive(Clone, Copy, Debug, PartialEq, Eq, Structural)]
pub enum ErrorKind {
    /// A value was read as a variant that it is not.
    TypeMismatch,
    /// A value has no counterpart in the requested representation.
    ConversionError,
    /// Anything else, such as a value that may not cross a thread boundary.
    Generic,
}

/// An error raised by this library, with a message for the embedding host.
#[derive(Clone, Debug)]
pub struct SteelErr {
    pub kind: ErrorKind,
    pub message: String,
}

impl SteelErr {
    pub fn new(kind: ErrorKind, message: String) -> (r: SteelErr)
        ensures
            r.kind == kind,
            r.message == message,
    {
        SteelErr { kind, message }
    }

    pub fn from_str(kind: ErrorKind, message: &str) -> (r: SteelErr)
        ensures
            r.kind == kind,
            r.message@ == message@,
    {
        SteelErr { kind, message: message.to_owned() }
    }
}

} // verus!

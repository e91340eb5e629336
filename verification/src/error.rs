use vstd::prelude::*;

verus! {

/// The three ways a generation run can fail.
#[derive(Clone, Copy, Debug, PartialEq, Eq, Structural)]
pub enum ErrorKind {
    /// The requested page dimensions were rejected before any work began.
    Configuration,
    /// The authoring library failed to produce a serialized document.
    Generation,
    /// The filesystem write of the serialized document failed.
    Io,
}

/// A tagged failure: the kind a caller can branch on, and a human-readable
/// message. For `Io` errors the message is the underlying OS error text.
#[derive(Clone, Debug)]
pub struct GenError {
    pub kind: ErrorKind,
    pub message: String,
}

impl GenError {
    pub fn configuration(message: String) -> (e: Self)
        ensures
            e.kind == ErrorKind::Configuration,
            e.message@ == message@,
    {
        GenError { kind: ErrorKind::Configuration, message }
    }

    pub fn generation(message: String) -> (e: Self)
        ensures
            e.kind == ErrorKind::Generation,
            e.message@ == message@,
    {
        GenError { kind: ErrorKind::Generation, message }
    }

    pub fn io(message: String) -> (e: Self)
        ensures
            e.kind == ErrorKind::Io,
            e.message@ == message@,
    {
        GenError { kind: ErrorKind::Io, message }
    }
}

} // verus!

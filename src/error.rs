use vstd::prelude::*;

verus! {

/// The broad class of a failed filesystem operation.
#[derive(Debug, Clone, Copy, PartialEq, Eq, Structural)]
pub enum IoKind {
    NotFound,
    AlreadyExists,
    PermissionDenied,
    Other,
}

/// A failed filesystem operation, as reported by the code that performed it.
#[derive(Debug, Clone)]
pub struct IoError {
    pub kind: IoKind,
    pub message: String,
}

impl IoError {
    pub fn new(kind: IoKind, message: String) -> (r: IoError)
        ensures
            r.kind == kind,
            r.message@ == message@,
    {
        IoError { kind, message }
    }
}

} // verus!

use vstd::prelude::*;

verus! {

/// Closed set of error classes a decode step can report. `Bug` marks a
/// malformed fixed-size buffer or an out-of-bounds field read: conditions
/// that point at kernel protocol skew or a decoding defect.
#[derive(Debug, Clone, Copy, PartialEq, Eq, Structural)]
pub enum ErrorKind {
    Bug,
}

/// A structured, recoverable decode error. It aborts only the decode of the
/// single offending message, never the whole query cycle.
#[derive(Debug, Clone)]
pub struct NisporError {
    pub kind: ErrorKind,
    pub msg: String,
}

impl NisporError {
    /// Builds a bug-class error carrying a diagnostic message.
    pub fn bug(msg: &str) -> (r: NisporError)
        ensures
            r.kind == ErrorKind::Bug,
            r.msg@ == msg@,
    {
        NisporError { kind: ErrorKind::Bug, msg: msg.to_owned() }
    }
}

} // verus!

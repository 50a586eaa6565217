//! The backend's error type.
//!
//! Failures of the host context (during transform or text operations) are
//! wrapped into one opaque error kind carrying a diagnostic string: the
//! host's best-effort serialisation of the underlying failure, or a fixed
//! fallback when even that serialisation failed.

use vstd::prelude::*;

verus! {

/// An error from the host drawing surface, carrying a diagnostic string.
#[derive(Clone, Debug, PartialEq, Eq)]
pub struct CanvasError {
    message: String,
}

impl View for CanvasError {
    type V = Seq<char>;

    closed spec fn view(&self) -> Seq<char> {
        self.message@
    }
}

impl CanvasError {
    /// Wraps a diagnostic string.
    pub fn new(message: String) -> (e: CanvasError)
        ensures
            e@ == message@,
    {
        CanvasError { message }
    }

    /// The diagnostic string.
    pub fn message(&self) -> (m: &String)
        ensures
            m@ == self@,
    {
        &self.message
    }

    /// Wraps the host's best-effort serialisation of a failure: the
    /// serialised form when there is one, the fallback `unknown` otherwise.
    pub fn from_serialized(serialized: Option<String>) -> (e: CanvasError)
        ensures
            serialized matches Some(s) ==> e@ == s@,
            serialized is None ==> e@ == "unknown"@,
    {
        match serialized {
            Some(s) => CanvasError { message: s },
            None => CanvasError { message: String::from_str("unknown") },
        }
    }
}

} // verus!

//! The outcomes that are not a success.

use vstd::prelude::*;

verus! {

/// Why an operation did not succeed.
#[derive(Clone, Copy, Debug, PartialEq, Eq, Structural)]
pub enum Fail {
    /// An inbound frame that is not this node's to answer. Nothing is wrong
    /// with the frame and nothing was done with it.
    Ignored,
    /// A query that went unanswered through its last retry.
    Timeout,
}

impl Fail {
    /// Whether the outcome tells of a protocol fault. `Ignored` does not: the
    /// frame was for somebody else.
    pub fn is_fault(&self) -> (fault: bool)
        ensures
            fault == (*self == Fail::Timeout),
    {
        match self {
            Fail::Ignored => false,
            Fail::Timeout => true,
        }
    }
}

} // verus!

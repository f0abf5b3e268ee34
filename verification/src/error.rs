//! The ways an invocation can fail.

use crate::envelope::Action;
use vstd::prelude::*;

verus! {

/// Why an invocation stopped without finishing. Every failure is final:
/// nothing is retried.
#[derive(Clone, Copy, Debug, PartialEq, Eq, Structural)]
pub enum WorkError {
    /// The envelope or its payload is malformed.
    DecodeError,
    /// The request-handling layer failed on the request of this action.
    HandlerFailure(Action),
    /// A claimed hash differs from the hash the ledger records.
    HashMismatch,
    /// The handler's outcome lacks the pair that the action needs.
    MissingPair,
    /// The ledger has no row for an id that the handler's outcome names.
    LookupFailure,
    /// The ledger could not be read.
    StoreUnavailable,
    /// The envelope names an action outside the closed set.
    UnknownAction,
    /// The caller answered a question other than the one that was asked.
    UnexpectedReply,
}

} // verus!

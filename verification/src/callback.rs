//! The callback contract: every externally observable operation terminates
//! in exactly one callback invocation.

use vstd::prelude::*;
use crate::errors::ErrorKind;

verus! {

/// One invocation owed to the foreign caller: either the success callback
/// with the address (opaque id) of a boundary-owned value, or the failure
/// callback with a message and a classification. Both carry the caller's
/// correlation index back.
#[derive(Debug, PartialEq, Eq, Clone)]
pub enum CallbackInvocation {
    Success { index: usize, response: usize },
    Failure { index: usize, message: String, kind: ErrorKind },
}

/// The correlation index an invocation carries back to the caller.
pub open spec fn invocation_index(r: CallbackInvocation) -> usize {
    match r {
        CallbackInvocation::Success { index, .. } => index,
        CallbackInvocation::Failure { index, .. } => index,
    }
}

/// Law: an invocation is a success or a failure, never both and never
/// neither — settling an operation fires exactly one of the two callbacks.
pub proof fn lemma_invocation_exclusive(r: CallbackInvocation)
    ensures
        (r is Success) <==> !(r is Failure),
{
}

} // verus!

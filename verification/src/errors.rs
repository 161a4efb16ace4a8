//! The coarse error taxonomy surfaced through the failure callback.

use vstd::prelude::*;

verus! {

/// Classification of a failure reported to the foreign caller; it mirrors
/// the store collaborator's own taxonomy one variant for one.
#[derive(Clone, Copy, Debug, PartialEq, Eq, Structural)]
pub enum ErrorKind {
    Unspecified,
    ExecAbort,
    Timeout,
    Disconnect,
    CircuitBreakerOpen,
}

/// The numeric code an error kind travels as across the boundary.
pub open spec fn kind_code(k: ErrorKind) -> u32 {
    match k {
        ErrorKind::Unspecified => 0,
        ErrorKind::ExecAbort => 1,
        ErrorKind::Timeout => 2,
        ErrorKind::Disconnect => 3,
        ErrorKind::CircuitBreakerOpen => 4,
    }
}

/// Encodes an error kind as its wire code.
pub fn kind_to_code(k: ErrorKind) -> (c: u32)
    ensures
        c == kind_code(k),
{
    match k {
        ErrorKind::Unspecified => 0,
        ErrorKind::ExecAbort => 1,
        ErrorKind::Timeout => 2,
        ErrorKind::Disconnect => 3,
        ErrorKind::CircuitBreakerOpen => 4,
    }
}

/// One failure bound for the failure callback: the caller's correlation
/// index, a human-readable message, and the coarse classification.
#[derive(Debug, PartialEq, Eq, Clone)]
pub struct FailureReport {
    pub index: usize,
    pub message: String,
    pub kind: ErrorKind,
}

} // verus!

//! Fault containment: every contained unit of work ends either silently or
//! in one structured failure report, never in an escaped fault.
//!
//! A unit of work runs at the outermost boundary call and is expected to
//! report its own success through a callback; what comes back here is only
//! how it terminated. An abnormal termination is treated exactly like a
//! returned failure: a descriptive message naming the failing operation is
//! built, and a report for the failure callback is produced.

use vstd::prelude::*;
use vstd::string::StringExecFns;
use crate::errors::{ErrorKind, FailureReport};

verus! {

/// How a contained unit of work terminated: it ran to completion (having
/// reported its own outcome), it returned a failure description, or it was
/// cut short by an internal fault whose description was captured.
#[derive(Debug, PartialEq, Eq, Clone)]
pub enum WorkStatus {
    Completed,
    Failed(String),
    Panicked(String),
}

/// The message reported for a unit of work that failed or faulted: it names
/// the failing operation, says which of the two happened, and carries the
/// captured description.
pub open spec fn spec_containment_message(op: Seq<char>, panicked: bool, detail: Seq<char>) -> Seq<char> {
    "Native function "@ + op + (if panicked {
        " panicked: "@
    } else {
        " failed: "@
    }) + detail
}

/// Builds the containment message for the failing operation `op`.
pub fn containment_message(op: &str, panicked: bool, detail: &str) -> (m: String)
    ensures
        m@ == spec_containment_message(op@, panicked, detail@),
{
    let mut m = String::new();
    m.append("Native function ");
    m.append(op);
    if panicked {
        m.append(" panicked: ");
    } else {
        m.append(" failed: ");
    }
    m.append(detail);
    m
}

/// The kind a containment report carries when no more specific one was
/// requested for the operation.
pub open spec fn effective_kind(requested: Option<ErrorKind>) -> ErrorKind {
    match requested {
        Some(kind) => kind,
        None => ErrorKind::Unspecified,
    }
}

/// Converts how a unit of work named `op_name` terminated into at most one
/// failure report: none when the work completed, and exactly one carrying
/// `callback_index` and the requested kind — `Unspecified` when none is
/// more specific — when it failed or faulted.
pub fn contain(status: WorkStatus, op_name: &str, callback_index: usize, requested_kind: Option<ErrorKind>) -> (r: Option<FailureReport>)
    ensures
        (status is Completed) <==> (r is None),
        (status matches WorkStatus::Failed(d) ==> r matches Some(rep)
            && rep.index == callback_index
            && rep.kind == effective_kind(requested_kind)
            && rep.message@ == spec_containment_message(op_name@, false, d@)),
        (status matches WorkStatus::Panicked(d) ==> r matches Some(rep)
            && rep.index == callback_index
            && rep.kind == effective_kind(requested_kind)
            && rep.message@ == spec_containment_message(op_name@, true, d@)),
    {
    let kind = match requested_kind {
        Some(kind) => kind,
        None => ErrorKind::Unspecified,
    };
    match status {
        WorkStatus::Completed => None,
        WorkStatus::Failed(d) => Some(FailureReport {
            index: callback_index,
            message: containment_message(op_name, false, d.as_str()),
            kind,
        }),
        WorkStatus::Panicked(d) => Some(FailureReport {
            index: callback_index,
            message: containment_message(op_name, true, d.as_str()),
            kind,
        }),
    }
}

/// Law: the message reported for a fault mentions the failing operation —
/// the operation's name stands verbatim inside the message, right after the
/// fixed prefix.
pub proof fn lemma_containment_message_names_operation(op: Seq<char>, panicked: bool, detail: Seq<char>)
    ensures
        spec_containment_message(op, panicked, detail).subrange(16, 16 + op.len() as int) == op,
{
    reveal_strlit("Native function ");
    assert(spec_containment_message(op, panicked, detail).subrange(16, 16 + op.len() as int) =~= op);
}

} // verus!

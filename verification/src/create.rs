//! The Create protocol: one blocking connection attempt, one callback.
//!
//! Create runs its whole attempt — decoding the configuration, building the
//! scheduler, connecting — inside the fault containment boundary, so that
//! however the attempt ends the caller receives exactly one callback with
//! correlation index 0: the success callback with a fresh live handle, or
//! the failure callback with kind `Disconnect` and a message naming the
//! operation.

use vstd::prelude::*;
use crate::callback::{invocation_index, CallbackInvocation};
use crate::containment::{contain, spec_containment_message, WorkStatus};
use crate::errors::ErrorKind;
use crate::handles::{ExecutionCore, HandleTable};

verus! {

/// How one contained Create attempt ended: connected to the store, failed
/// with the collaborator's description, or cut short by an internal fault
/// whose description was captured at the containment boundary.
pub enum CreateAttempt<C> {
    Connected(C),
    Failed(String),
    Panicked(String),
}

/// Settles a Create attempt into the one callback invocation owed for it.
/// A connected client is registered as a fresh handle holding the caller's
/// single logical reference, and its id goes to the success callback with
/// index 0. A failure or a contained fault leaves the registry untouched
/// and goes to the failure callback with index 0, kind `Disconnect`, and
/// the containment message naming the creating operation.
pub fn settle_create<C>(
    handles: &mut HandleTable<C>,
    success_callback: u64,
    failure_callback: u64,
    attempt: CreateAttempt<C>,
) -> (r: CallbackInvocation)
    requires
        old(handles).wf(),
    ensures
        final(handles).wf(),
        invocation_index(r) == 0,
        (attempt is Connected) <==> (r is Success),
        (attempt matches CreateAttempt::Connected(client) ==> r
            matches CallbackInvocation::Success { index, response } && response == old(
            handles,
        ).cores@.len() && final(handles).cores@ == old(handles).cores@.push(
            Some((ExecutionCore { client, success_callback, failure_callback })),
        ) && final(handles).refs@ == old(handles).refs@.push(1u64) && final(handles).live(
            response as int,
        ) && final(handles).refs_of(response as int) == 1),
        (attempt matches CreateAttempt::Failed(detail) ==> r
            matches CallbackInvocation::Failure { index, message, kind } && kind
            == ErrorKind::Disconnect && message@ == spec_containment_message(
            "create_client"@,
            false,
            detail@,
        ) && *final(handles) == *old(handles)),
        (attempt matches CreateAttempt::Panicked(detail) ==> r
            matches CallbackInvocation::Failure { index, message, kind } && kind
            == ErrorKind::Disconnect && message@ == spec_containment_message(
            "create_client"@,
            true,
            detail@,
        ) && *final(handles) == *old(handles)),
{
    match attempt {
        CreateAttempt::Connected(client) => {
            let core = ExecutionCore { client, success_callback, failure_callback };
            let id = handles.register(core);
            CallbackInvocation::Success { index: 0, response: id }
        },
        CreateAttempt::Failed(detail) => contained_failure(WorkStatus::Failed(detail)),
        CreateAttempt::Panicked(detail) => contained_failure(WorkStatus::Panicked(detail)),
    }
}

/// Reports a failed or faulted Create attempt through the containment
/// boundary, exactly as any contained unit of work is reported.
fn contained_failure(status: WorkStatus) -> (r: CallbackInvocation)
    requires
        !(status is Completed),
    ensures
        r matches CallbackInvocation::Failure { index, message, kind } && index == 0 && kind
            == ErrorKind::Disconnect,
        (status matches WorkStatus::Failed(detail) ==> r matches CallbackInvocation::Failure {
            message,
            ..
        } && message@ == spec_containment_message("create_client"@, false, detail@)),
        (status matches WorkStatus::Panicked(detail) ==> r matches CallbackInvocation::Failure {
            message,
            ..
        } && message@ == spec_containment_message("create_client"@, true, detail@)),
{
    match contain(status, "create_client", 0, Some(ErrorKind::Disconnect)) {
        Some(report) => CallbackInvocation::Failure {
            index: report.index,
            message: report.message,
            kind: report.kind,
        },
        None => unreached(),
    }
}

} // verus!

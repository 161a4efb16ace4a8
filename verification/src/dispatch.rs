//! The command dispatcher.
//!
//! Dispatch has an eager half and a deferred half. The eager half —
//! [`dispatch_command`] — resolves the request kind, copies the caller's
//! argument buffers into the command in their exact order, and pairs the
//! command with its routing directive; an unresolvable kind is rejected on
//! the spot with an `ExecAbort` report and nothing is scheduled. The
//! deferred half — [`settle_command`] — turns the one outcome of the sent
//! command into the one callback invocation owed for it.

use vstd::prelude::*;
use vstd::string::StringExecFns;
use glide_core::request_type::RequestType;
use redis::Cmd;
use redis::Value;
use redis::RedisError;
use redis::cluster_routing::RoutingInfo;
use crate::callback::{invocation_index, CallbackInvocation};
use crate::errors::{ErrorKind, FailureReport};
use crate::responses::ResponseTable;
use crate::store::{
    append_argument, classify_error, cmd_args, describe_error, error_class, read_arguments,
    request_code, resolution_args, resolve_request,
};

verus! {

/// One command ready to be sent: the caller's correlation index, the
/// resolved request-kind code, the fully built command, and the routing
/// directive (absent means the collaborator picks a default route).
pub struct PendingCommand {
    pub index: usize,
    pub kind_code: u32,
    pub command: Cmd,
    pub route: Option<RoutingInfo>,
}

/// What the eager half of Dispatch decided: reject synchronously, or
/// schedule one send.
pub enum DispatchAction {
    Reject(FailureReport),
    Schedule(PendingCommand),
}

/// Appends each argument to the command, in exactly the order supplied —
/// argument order is semantically significant to the store.
fn append_arguments(command: &mut Cmd, args: &Vec<Vec<u8>>)
    ensures
        cmd_args(*final(command)) == cmd_args(*old(command)) + args.deep_view(),
{
    let n = args.len();
    for i in 0..n
        invariant
            n == args.len(),
            cmd_args(*command) == cmd_args(*old(command)) + args.deep_view().take(i as int),
    {
        append_argument(command, &args[i]);
        proof {
            assert(args@[i as int].deep_view() =~= args@[i as int]@);
            assert(cmd_args(*command) =~= cmd_args(*old(command)) + args.deep_view().take(
                i as int + 1,
            ));
        }
    }
    proof {
        assert(args.deep_view().take(n as int) =~= args.deep_view());
    }
}

/// The eager half of Dispatch. Resolves `request` to its command template;
/// if that fails, the failure is reported synchronously — before control
/// returns to the caller — with kind `ExecAbort`, and nothing is
/// scheduled. Otherwise the argument buffers, already copied into owned
/// byte strings by the inbound bridge, are appended to the template in the
/// exact order supplied, and the command is scheduled with its route. The
/// returned code is the request kind's wire discriminant.
pub fn dispatch_command(
    request: RequestType,
    index: usize,
    args: &Vec<Vec<u8>>,
    route: Option<RoutingInfo>,
) -> (r: (u32, DispatchAction))
    ensures
        r.0 == request_code(request),
        (r.1 is Schedule) <==> (resolution_args(request_code(request)) is Some),
        (r.1 matches DispatchAction::Reject(rep) ==> rep.index == index && rep.kind
            == ErrorKind::ExecAbort && rep.message@ == "Couldn't fetch command type"@),
        (r.1 matches DispatchAction::Schedule(pending) ==> {
            &&& pending.index == index
            &&& pending.kind_code == r.0
            &&& pending.route == route
            &&& resolution_args(r.0) matches Some(base) && cmd_args(pending.command) == base
                + args.deep_view()
        }),
{
    let (code, template) = resolve_request(request);
    match template {
        None => {
            let report = FailureReport {
                index,
                message: String::from_str("Couldn't fetch command type"),
                kind: ErrorKind::ExecAbort,
            };
            (code, DispatchAction::Reject(report))
        },
        Some(mut command) => {
            append_arguments(&mut command, args);
            let pending = PendingCommand { index, kind_code: code, command, route };
            (code, DispatchAction::Schedule(pending))
        },
    }
}

/// The arguments of a pending command, in the order they will reach the
/// store.
pub fn command_parts(pending: &PendingCommand) -> (parts: Vec<Vec<u8>>)
    ensures
        parts.deep_view() == cmd_args(pending.command),
{
    read_arguments(&pending.command)
}

/// The deferred half of Dispatch: settles the one outcome the sent command
/// produced into the one callback invocation owed for it, carrying the
/// original correlation index either way. A returned value becomes a fresh
/// boundary-owned response node whose id goes to the success callback; an
/// error goes to the failure callback with the collaborator's rendering of
/// it — promised nothing of, since that rendering can depend on the
/// process locale — and exactly its classification, leaving the response
/// table untouched.
pub fn settle_command(
    responses: &mut ResponseTable,
    index: usize,
    outcome: Result<Value, RedisError>,
) -> (r: CallbackInvocation)
    requires
        old(responses).wf(),
    ensures
        final(responses).wf(),
        invocation_index(r) == index,
        (outcome is Ok) <==> (r is Success),
        (outcome matches Ok(value) ==> r matches CallbackInvocation::Success {
            index: i,
            response,
        } && i == index && response == old(responses).nodes@.len() && final(responses).nodes@
            == old(responses).nodes@.push(Some(value)) && final(responses).live(response as int)
            && final(responses).value_at(response as int) == value),
        (outcome matches Err(error) ==> r matches CallbackInvocation::Failure {
            index: i,
            kind,
            ..
        } && i == index && kind == error_class(error) && *final(responses) == *old(responses)),
{
    match outcome {
        Ok(value) => {
            let id = responses.allocate(value);
            CallbackInvocation::Success { index, response: id }
        },
        Err(error) => {
            let message = describe_error(&error);
            let kind = classify_error(&error);
            CallbackInvocation::Failure { index, message, kind }
        },
    }
}

/// Law: completions of a batch of dispatched commands may arrive in any
/// order; one invocation is owed per command, each settled invocation
/// carries the index of the command it completes (as `settle_command`
/// ensures), and so every dispatched correlation index is represented
/// among the settled invocations — at the position where its command
/// completed, distinct commands settling at distinct positions.
pub proof fn lemma_completions_cover_indices(
    dispatched: Seq<usize>,
    order: Seq<int>,
    positions: Seq<int>,
    settled: Seq<CallbackInvocation>,
)
    requires
        order.len() == dispatched.len(),
        settled.len() == dispatched.len(),
        positions.len() == dispatched.len(),
        forall|j: int| 0 <= j < order.len() ==> 0 <= #[trigger] order[j] < dispatched.len(),
        // `positions` inverts the completion order: the command dispatched as
        // number `i` settles at position `positions[i]`.
        forall|i: int| 0 <= i < positions.len() ==> 0 <= #[trigger] positions[i] < order.len(),
        forall|i: int| 0 <= i < positions.len() ==> order[#[trigger] positions[i]] == i,
        forall|j: int| 0 <= j < settled.len() ==> invocation_index(#[trigger] settled[j])
            == dispatched[order[j]],
    ensures
        forall|i: int| 0 <= i < dispatched.len() ==> invocation_index(
            settled[#[trigger] positions[i]],
        ) == dispatched[i],
        forall|i: int, k: int| 0 <= i < k < dispatched.len() ==> #[trigger] positions[i]
            != #[trigger] positions[k],
{
    assert forall|i: int| 0 <= i < dispatched.len() implies invocation_index(
        settled[#[trigger] positions[i]],
    ) == dispatched[i] by {
        assert(invocation_index(settled[positions[i]]) == dispatched[order[positions[i]]]);
    }
    assert forall|i: int, k: int|
        0 <= i < k < dispatched.len() implies #[trigger] positions[i]
        != #[trigger] positions[k] by {
        assert(order[positions[i]] == i);
        assert(order[positions[k]] == k);
    }
}

} // verus!

//! Trusted bindings to the store collaborator.
//!
//! Everything the dispatch logic needs from the store client library goes
//! through the declarations and wrappers here: resolving a request kind to
//! its command template, appending argument bytes to a command, reading a
//! command's argument list back, and classifying a failed command's error.
//! Each wrapper's contract states only what the collaborator's source
//! shows; the logic built on top is verified against these contracts.

use vstd::prelude::*;
use glide_core::request_type::RequestType;
use glide_core::errors::RequestErrorType;
use redis::Cmd;
use redis::Value;
use redis::RedisError;
use redis::cluster_routing::RoutingInfo;
use crate::errors::ErrorKind;

verus! {

#[verifier::external_type_specification]
#[verifier::external_body]
pub struct ExRequestType(RequestType);

#[verifier::external_type_specification]
#[verifier::external_body]
pub struct ExCmd(Cmd);

#[verifier::external_type_specification]
#[verifier::external_body]
pub struct ExValue(Value);

#[verifier::external_type_specification]
#[verifier::external_body]
pub struct ExRedisError(RedisError);

#[verifier::external_type_specification]
#[verifier::external_body]
pub struct ExRoutingInfo(RoutingInfo);

/// The ordered argument list packed inside a store command, each argument a
/// byte string. A command is an opaque container built by the collaborator;
/// this names its contents.
pub uninterp spec fn cmd_args(c: Cmd) -> Seq<Seq<u8>>;

/// The wire discriminant of a request kind — the numeric code it travels
/// as across the boundary. A function of the kind alone, and distinct for
/// distinct kinds of this fieldless enum.
pub uninterp spec fn request_code(r: RequestType) -> u32;

/// The command template a request-kind code resolves to: `None` for a code
/// with no command, otherwise the template's argument list (the command
/// name words). The template is a function of the code alone.
pub uninterp spec fn resolution_args(code: u32) -> Option<Seq<Seq<u8>>>;

/// Relies on glide_core::request_type::RequestType::get_command: resolves a
/// request kind to its command template, `None` exactly for a kind with no
/// command. The paired code is the kind's wire discriminant, so the
/// resolution decision and the template are tied to the request in
/// contracts.
#[verifier::external_body]
pub(crate) fn resolve_request(request: RequestType) -> (r: (u32, Option<Cmd>))
    ensures
        r.0 == request_code(request),
        (r.1 is Some) == (resolution_args(r.0) is Some),
        (r.1 matches Some(c) ==> resolution_args(r.0) == Some(cmd_args(c))),
{
    (request as u32, request.get_command())
}

/// Relies on redis::Cmd::arg with a byte-slice argument: appends exactly
/// one argument holding those bytes to the command's argument list.
#[verifier::external_body]
pub(crate) fn append_argument(c: &mut Cmd, arg: &Vec<u8>)
    ensures
        cmd_args(*final(c)) == cmd_args(*old(c)).push(arg@),
{
    c.arg(&arg[..]);
}

/// Relies on redis::Cmd::args_iter: hands the command's arguments out in
/// order; a scan-cursor placeholder is read as an empty argument.
#[verifier::external_body]
pub(crate) fn read_arguments(c: &Cmd) -> (r: Vec<Vec<u8>>)
    ensures
        r.deep_view() == cmd_args(*c),
{
    c.args_iter()
        .map(|a| match a {
            redis::Arg::Simple(bytes) => bytes.to_vec(),
            redis::Arg::Cursor => Vec::new(),
        })
        .collect()
}

/// The coarse class the collaborator's taxonomy assigns an error; a
/// function of the error value alone, carried into this library's own
/// kinds one variant for one.
pub uninterp spec fn error_class(e: RedisError) -> ErrorKind;

/// Relies on glide_core::errors::error_message: renders the collaborator's
/// error as human-readable text, with connection errors given a
/// reconnection note. Nothing is promised of the text: a system error's
/// rendering goes through the platform's error strings, which can depend
/// on the process locale, so the same error value need not render the
/// same everywhere.
#[verifier::external_body]
pub(crate) fn describe_error(e: &RedisError) -> String {
    glide_core::errors::error_message(e)
}

/// Relies on glide_core::errors::error_type: classifies the collaborator's
/// error into the coarse taxonomy; each variant is carried over one for
/// one.
#[verifier::external_body]
pub(crate) fn classify_error(e: &RedisError) -> (r: ErrorKind)
    ensures
        r == error_class(*e),
{
    match glide_core::errors::error_type(e) {
        RequestErrorType::Unspecified => ErrorKind::Unspecified,
        RequestErrorType::ExecAbort => ErrorKind::ExecAbort,
        RequestErrorType::Timeout => ErrorKind::Timeout,
        RequestErrorType::Disconnect => ErrorKind::Disconnect,
        RequestErrorType::CircuitBreakerOpen => ErrorKind::CircuitBreakerOpen,
    }
}

} // verus!

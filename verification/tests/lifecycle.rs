//! Handle and response-node lifecycles, creation settlement, and fault
//! containment, driven through the public surface.

use glide_bridge::callback::CallbackInvocation;
use glide_bridge::containment::{contain, containment_message, WorkStatus};
use glide_bridge::create::{settle_create, CreateAttempt};
use glide_bridge::errors::{kind_to_code, ErrorKind};
use glide_bridge::handles::{ExecutionCore, HandleTable};
use glide_bridge::level::{level_from_code, level_to_code, Level};
use glide_bridge::responses::ResponseTable;
use redis::Value;

#[test]
fn level_codes_round_trip() {
    let levels = vec![
        Level::Error,
        Level::Warn,
        Level::Info,
        Level::Debug,
        Level::Trace,
        Level::Off,
    ];
    for level in levels {
        let code = level_to_code(level);
        assert_eq!(level_from_code(code), Some(level));
    }
    assert_eq!(level_to_code(Level::Error), 0);
    assert_eq!(level_to_code(Level::Off), 5);
}

#[test]
fn level_rejects_unknown_codes() {
    assert_eq!(level_from_code(6), None);
    assert_eq!(level_from_code(u32::MAX), None);
}

#[test]
fn kind_codes_follow_the_taxonomy() {
    assert_eq!(kind_to_code(ErrorKind::Unspecified), 0);
    assert_eq!(kind_to_code(ErrorKind::ExecAbort), 1);
    assert_eq!(kind_to_code(ErrorKind::Timeout), 2);
    assert_eq!(kind_to_code(ErrorKind::Disconnect), 3);
    assert_eq!(kind_to_code(ErrorKind::CircuitBreakerOpen), 4);
}

#[test]
fn containment_message_is_exact() {
    assert_eq!(
        containment_message("create_client", true, "boom"),
        "Native function create_client panicked: boom"
    );
    assert_eq!(
        containment_message("create_client", false, "no route"),
        "Native function create_client failed: no route"
    );
}

#[test]
fn contain_reports_nothing_for_completed_work() {
    assert_eq!(
        contain(
            WorkStatus::Completed,
            "create_client",
            5,
            Some(ErrorKind::Disconnect)
        ),
        None
    );
}

#[test]
fn contain_converts_a_fault_into_one_report() {
    let report = contain(
        WorkStatus::Panicked("stack blew up".to_string()),
        "create_client",
        0,
        Some(ErrorKind::Disconnect),
    )
    .expect("a fault must be reported");
    assert_eq!(report.index, 0);
    assert_eq!(report.kind, ErrorKind::Disconnect);
    assert!(report.message.contains("create_client"));
    assert!(report.message.contains("panicked"));
    assert!(report.message.contains("stack blew up"));
}

#[test]
fn contain_defaults_to_unspecified() {
    let report = contain(
        WorkStatus::Failed("bad input".to_string()),
        "create_client",
        2,
        None,
    )
    .expect("a failure must be reported");
    assert_eq!(report.kind, ErrorKind::Unspecified);
    assert_eq!(
        report.message,
        "Native function create_client failed: bad input"
    );
}

#[test]
fn create_success_registers_a_live_handle() {
    let mut handles: HandleTable<u8> = HandleTable::empty();
    let invocation = settle_create(&mut handles, 11, 22, CreateAttempt::Connected(9u8));
    match invocation {
        CallbackInvocation::Success { index, response } => {
            assert_eq!(index, 0);
            assert!(handles.is_live(response));
            assert_eq!(handles.ref_count(response), 1);
            let core = handles.core_of(response);
            assert_eq!(core.client, 9u8);
            assert_eq!(core.success_callback, 11);
            assert_eq!(core.failure_callback, 22);
        }
        CallbackInvocation::Failure { .. } => panic!("a connected attempt must succeed"),
    }
}

#[test]
fn create_failure_reports_disconnect() {
    let mut handles: HandleTable<u8> = HandleTable::empty();
    let invocation = settle_create(
        &mut handles,
        1,
        2,
        CreateAttempt::Failed("connection refused".to_string()),
    );
    assert_eq!(
        invocation,
        CallbackInvocation::Failure {
            index: 0,
            message: "Native function create_client failed: connection refused".to_string(),
            kind: ErrorKind::Disconnect,
        }
    );
    assert!(!handles.is_live(0));
}

#[test]
fn create_panic_is_contained_not_propagated() {
    let mut handles: HandleTable<u8> = HandleTable::empty();
    let invocation = settle_create(
        &mut handles,
        1,
        2,
        CreateAttempt::Panicked("index out of bounds".to_string()),
    );
    assert_eq!(
        invocation,
        CallbackInvocation::Failure {
            index: 0,
            message: "Native function create_client panicked: index out of bounds".to_string(),
            kind: ErrorKind::Disconnect,
        }
    );
}

#[test]
fn handle_stays_usable_until_its_one_close() {
    let mut handles: HandleTable<u8> = HandleTable::empty();
    let first = handles.register(ExecutionCore {
        client: 3,
        success_callback: 1,
        failure_callback: 2,
    });
    // A command in flight takes its own reference; the handle survives the
    // caller's close and dies with the command's release.
    handles.retain(first);
    assert_eq!(handles.ref_count(first), 2);
    handles.release(first);
    assert!(handles.is_live(first));
    handles.release(first);
    assert!(!handles.is_live(first));
}

#[test]
fn releasing_one_handle_leaves_others_alone() {
    let mut handles: HandleTable<u8> = HandleTable::empty();
    let a = match settle_create(&mut handles, 1, 2, CreateAttempt::Connected(1u8)) {
        CallbackInvocation::Success { response, .. } => response,
        _ => panic!("connected"),
    };
    let b = match settle_create(&mut handles, 1, 2, CreateAttempt::Connected(2u8)) {
        CallbackInvocation::Success { response, .. } => response,
        _ => panic!("connected"),
    };
    assert_ne!(a, b);
    handles.release(a);
    assert!(!handles.is_live(a));
    assert!(handles.is_live(b));
}

#[test]
fn response_allocations_and_releases_balance() {
    let mut responses = ResponseTable::empty();
    let mut ids = Vec::new();
    for _ in 0..4 {
        ids.push(responses.allocate(Value::Nil));
    }
    assert_eq!(responses.allocated, 4);
    assert_eq!(responses.released, 0);
    for id in &ids {
        assert!(responses.is_live(*id));
    }
    for id in ids {
        responses.release(id);
        assert!(!responses.is_live(id));
    }
    assert_eq!(responses.allocated, responses.released);
}

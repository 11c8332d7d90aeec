use simple_rust_controller::action::{error_policy, Action, Delay};
use simple_rust_controller::config::heap_mem_size;
use simple_rust_controller::context::Data;
use simple_rust_controller::controller::{schedule, Track};
use simple_rust_controller::error::{Error, ErrorResponse, KubeError};
use simple_rust_controller::reconciler::{reconcile, reconcile_at, AfterRead, LogRecord};
use simple_rust_controller::resource::{
    test_resource, MicroTime, ObjectMeta, TestResource, TestResourceSpec,
};

fn at(secs: i64) -> MicroTime {
    MicroTime { secs, nanos: 250_000 }
}

fn api_error(code: u16, reason: &str) -> KubeError {
    KubeError::Api(ErrorResponse {
        status: "Failure".to_string(),
        message: format!("testresources \"varsecret\" {}", reason),
        reason: reason.to_string(),
        code,
    })
}

fn existing(nonce: i64) -> TestResource {
    TestResource {
        metadata: ObjectMeta {
            name: Some("varsecret".to_string()),
            namespace: Some("default".to_string()),
        },
        spec: TestResourceSpec { nonce, updated_at: Some(at(1_600_000_000)) },
    }
}

#[test]
fn reconcile_begins_by_reading_the_managed_object() {
    let started = reconcile_at(at(10), at(11));
    assert!(matches!(started.log, LogRecord::Called { at: t } if t == at(10)));
    assert_eq!(started.request.namespace, "default");
    assert_eq!(started.request.name, "varsecret");
    assert_eq!(started.pending.started_at(), at(11));
}

#[test]
fn scenario_missing_object_is_created_with_empty_buffer() {
    let ctx = Data::new((), heap_mem_size(None));
    assert_eq!(ctx.buffer_len(), 0);
    let started = reconcile_at(at(100), at(101));
    match started.pending.on_read(Err(api_error(404, "NotFound")), &ctx) {
        AfterRead::Create { log, request, pending } => {
            assert!(matches!(log, LogRecord::MadeNew));
            assert_eq!(request.namespace, "default");
            assert_eq!(request.resource.metadata.name.as_deref(), Some("varsecret"));
            assert_eq!(request.resource.metadata.namespace, None);
            assert_eq!(request.resource.spec.nonce, 1);
            assert_eq!(request.resource.spec.updated_at, Some(at(101)));
            assert_eq!(pending.started_at(), at(101));
            let outcome = pending.on_create(Ok(existing(1)));
            assert!(matches!(outcome, Ok(Action::AwaitChange)));
        }
        other => panic!("expected a create call, got {:?}", other),
    }
}

#[test]
fn scenario_existing_object_is_reported_and_left_alone() {
    let ctx = Data::new((), 16);
    let started = reconcile_at(at(200), at(201));
    match started.pending.on_read(Ok(existing(5)), &ctx) {
        AfterRead::Done { log, action } => {
            match log {
                LogRecord::Changed { at: t, previous, current, buffer_len } => {
                    assert_eq!(t, at(201));
                    assert_eq!(previous, 4);
                    assert_eq!(current, 5);
                    assert_eq!(buffer_len, 16);
                }
                other => panic!("expected a change report, got {:?}", other),
            }
            assert_eq!(action, Action::AwaitChange);
        }
        other => panic!("expected the reconcile to finish, got {:?}", other),
    }
}

#[test]
fn scenario_forbidden_read_is_logged_and_swallowed() {
    let ctx = Data::new((), 0);
    let started = reconcile_at(at(300), at(301));
    match started.pending.on_read(Err(api_error(403, "Forbidden")), &ctx) {
        AfterRead::Done { log, action } => {
            match log {
                LogRecord::ReadFailed { error: KubeError::Api(response) } => {
                    assert_eq!(response.code, 403);
                    assert_eq!(response.reason, "Forbidden");
                }
                other => panic!("expected a read failure, got {:?}", other),
            }
            assert_eq!(action, Action::AwaitChange);
        }
        other => panic!("expected the reconcile to finish, got {:?}", other),
    }
}

#[test]
fn read_failure_outside_the_api_is_swallowed() {
    let ctx = Data::new((), 0);
    let started = reconcile_at(at(1), at(2));
    let next = started.pending.on_read(Err(KubeError::Other("connection reset".to_string())), &ctx);
    match next {
        AfterRead::Done { log: LogRecord::ReadFailed { error: KubeError::Other(text) }, action } => {
            assert_eq!(text, "connection reset");
            assert_eq!(action, Action::AwaitChange);
        }
        other => panic!("expected a swallowed failure, got {:?}", other),
    }
}

#[test]
fn previous_counter_of_the_smallest_value_does_not_wrap() {
    let ctx = Data::new((), 0);
    let started = reconcile_at(at(1), at(2));
    match started.pending.on_read(Ok(existing(i64::MIN)), &ctx) {
        AfterRead::Done { log: LogRecord::Changed { previous, current, .. }, .. } => {
            assert_eq!(current, i64::MIN);
            assert_eq!(previous, i64::MIN as i128 - 1);
        }
        other => panic!("expected a change report, got {:?}", other),
    }
}

#[test]
fn failed_create_is_an_error_and_is_retried_after_one_second() {
    let ctx = Data::new((), 0);
    let started = reconcile_at(at(1), at(2));
    let pending = match started.pending.on_read(Err(api_error(404, "NotFound")), &ctx) {
        AfterRead::Create { pending, .. } => pending,
        other => panic!("expected a create call, got {:?}", other),
    };
    let outcome = pending.on_create(Err(api_error(409, "AlreadyExists")));
    match &outcome {
        Err(Error::UnknownKubeError { source: KubeError::Api(response) }) => {
            assert_eq!(response.code, 409);
        }
        other => panic!("expected the create error, got {:?}", other),
    }
    let expected = Action::Requeue(Delay { secs: 1, nanos: 0 });
    assert_eq!(schedule(&outcome, &ctx), expected);
    assert_eq!(Track::Running.on_finished(&outcome, &ctx), Track::IdleFor(Delay { secs: 1, nanos: 0 }));
}

#[test]
fn error_policy_does_not_depend_on_the_error() {
    let ctx = Data::new("client", 3);
    let expected = Action::Requeue(Delay { secs: 1, nanos: 0 });
    let api = Error::from(api_error(500, "InternalError"));
    let other = Error::UnknownKubeError { source: KubeError::Other("timeout".to_string()) };
    assert_eq!(error_policy(&api, &ctx), expected);
    assert_eq!(error_policy(&other, &ctx), expected);
}

#[test]
fn create_once_then_read_only() {
    let ctx = Data::new((), 0);
    let mut stored: Option<TestResource> = None;
    let mut writes = 0;
    for round in 0..3 {
        let started = reconcile_at(at(round), at(round));
        let reply = match stored.take() {
            Some(resource) => {
                stored = Some(existing(resource.spec.nonce));
                Ok(resource)
            }
            None => Err(api_error(404, "NotFound")),
        };
        match started.pending.on_read(reply, &ctx) {
            AfterRead::Done { action, .. } => assert_eq!(action, Action::AwaitChange),
            AfterRead::Create { request, pending, .. } => {
                writes += 1;
                stored = Some(existing(request.resource.spec.nonce));
                assert!(matches!(pending.on_create(Ok(request.resource)), Ok(Action::AwaitChange)));
            }
        }
    }
    assert_eq!(writes, 1);
    assert_eq!(stored.map(|r| r.spec.nonce), Some(1));
}

#[test]
fn reconcile_reads_a_plausible_clock() {
    let ctx = Data::new((), 0);
    let started = reconcile(&existing(1), &ctx);
    assert_eq!(started.request.name, "varsecret");
    let now = started.pending.started_at();
    assert!(now.is_well_formed());
    assert!(now.secs > 1_600_000_000);
    match started.log {
        LogRecord::Called { at: called } => {
            assert!(called.is_well_formed());
            assert!(called.secs <= now.secs + 1);
        }
        other => panic!("expected the first progress line, got {:?}", other),
    }
}

#[test]
fn test_resource_sets_name_counter_and_time_only() {
    let resource = test_resource("varsecret", &7, at(42));
    assert_eq!(resource.metadata.name.as_deref(), Some("varsecret"));
    assert_eq!(resource.metadata.namespace, None);
    assert_eq!(resource.spec, TestResourceSpec { nonce: 7, updated_at: Some(at(42)) });
}

#[test]
fn default_spec_is_unwritten() {
    assert_eq!(TestResourceSpec::default(), TestResourceSpec { nonce: 0, updated_at: None });
    let meta = ObjectMeta::default();
    assert_eq!(meta.name, None);
    assert_eq!(meta.namespace, None);
}

#[test]
fn track_moves_between_idle_and_running() {
    let ctx = Data::new((), 0);
    assert_eq!(Track::Idle.on_trigger(), Track::Running);
    assert_eq!(Track::IdleFor(Delay::from_secs(1)).on_trigger(), Track::Running);
    let waited: Result<Action, Error> = Ok(Action::await_change());
    assert_eq!(Track::Running.on_finished(&waited, &ctx), Track::Idle);
    let requeued: Result<Action, Error> = Ok(Action::requeue(Delay { secs: 30, nanos: 5 }));
    assert_eq!(Track::Running.on_finished(&requeued, &ctx), Track::IdleFor(Delay { secs: 30, nanos: 5 }));
}

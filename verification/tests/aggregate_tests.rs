use traceagg::aggregate::{
    get_service_a, get_service_c, handler, merge, plan_calls, ExternalModel, ServiceAModel,
};
use traceagg::codec::Carrier;
use traceagg::downstream::{classify, DependencyReply};
use traceagg::outcome::{error_status, CallOutcome, ErrorKind};
use traceagg::timesvc::TimeModel;

fn a_model(one: &str, two: &str) -> ServiceAModel {
    ServiceAModel { key_one: String::from(one), key_two: String::from(two) }
}

fn ok_reply_a() -> DependencyReply<ServiceAModel> {
    DependencyReply::Http(200, Some(a_model("(x)Field 1", "(x)Field 2")))
}

fn ok_reply_c() -> DependencyReply<TimeModel> {
    DependencyReply::Http(200, Some(TimeModel { key_time: 1700000000000 }))
}

#[test]
fn timeout_status_becomes_fallback_outcome() {
    let outcome = classify(
        DependencyReply::Http(504, None::<ServiceAModel>),
        Some((504, a_model("Timed out", "Timed out"))),
    );
    assert!(matches!(
        outcome,
        CallOutcome::Fallback(m) if m.key_one == "Timed out" && m.key_two == "Timed out"
    ));
}

#[test]
fn gateway_timeout_degrades_to_placeholder() {
    // Scenario: the routing dependency signals a gateway timeout; the
    // aggregate still succeeds with the fixed placeholder strings.
    let r = handler(DependencyReply::Http(504, None), ok_reply_c());
    match r {
        Ok(em) => {
            assert_eq!(em.key_one, "Timed out");
            assert_eq!(em.key_two, "Timed out");
            assert_eq!(em.key_time, 1700000000000);
        },
        Err(e) => panic!("aggregate must not fail on a timeout, got {}", e),
    }
}

#[test]
fn server_error_fails_aggregate() {
    // Scenario: the routing dependency answers 500; the aggregate fails
    // with a client-visible error and no merge is attempted.
    let r = handler(DependencyReply::Http(500, None), ok_reply_c());
    assert!(matches!(r, Err(400)));
}

#[test]
fn rejection_fails_regardless_of_other_dependency() {
    let r1 = handler(DependencyReply::Http(403, None), ok_reply_c());
    assert!(matches!(r1, Err(400)));
    let r2 = handler(DependencyReply::Http(403, None), DependencyReply::Unreachable);
    assert!(matches!(r2, Err(400)));
}

#[test]
fn unreachable_dependency_maps_to_server_error() {
    // Scenario: the time dependency is unreachable; the aggregate fails
    // with the transport failure's surfaced status.
    let r = handler(ok_reply_a(), DependencyReply::Unreachable);
    assert!(matches!(r, Err(500)));
    let m = merge(
        CallOutcome::Success(a_model("a", "b")),
        CallOutcome::Failure(ErrorKind::Unreachable),
    );
    assert!(matches!(m, Err(ErrorKind::Unreachable)));
    assert_eq!(error_status(&ErrorKind::Unreachable), 500);
}

#[test]
fn merge_succeeds_only_without_failure() {
    let ok: Result<ExternalModel, ErrorKind> = merge(
        CallOutcome::Fallback(a_model("Timed out", "Timed out")),
        CallOutcome::Success(TimeModel { key_time: 7 }),
    );
    match ok {
        Ok(em) => {
            assert_eq!(em.key_one, "Timed out");
            assert_eq!(em.key_time, 7);
        },
        Err(_) => panic!("fallback plus success must merge"),
    }
    let failed = merge(
        CallOutcome::Success(a_model("a", "b")),
        CallOutcome::Failure(ErrorKind::UpstreamRejected(503)),
    );
    assert!(matches!(failed, Err(ErrorKind::UpstreamRejected(503))));
}

#[test]
fn repeated_aggregate_is_identical() {
    // Unchanged dependency replies give a field-for-field identical
    // response.
    let r1 = handler(ok_reply_a(), ok_reply_c());
    let r2 = handler(ok_reply_a(), ok_reply_c());
    match (r1, r2) {
        (Ok(a), Ok(b)) => {
            assert_eq!(a.key_one, b.key_one);
            assert_eq!(a.key_two, b.key_two);
            assert_eq!(a.key_time, b.key_time);
        },
        _ => panic!("both aggregates must succeed"),
    }
}

#[test]
fn malformed_body_fails_aggregate() {
    let r = handler(DependencyReply::Http(200, None), ok_reply_c());
    assert!(matches!(r, Err(400)));
    let out = classify(DependencyReply::Http(200, None::<TimeModel>), None);
    assert!(matches!(out, CallOutcome::Failure(ErrorKind::MalformedResponse)));
}

#[test]
fn downstream_callers_classify_each_reply() {
    assert!(matches!(get_service_a(DependencyReply::Unreachable), Err(500)));
    assert!(matches!(get_service_a(DependencyReply::Http(404, None)), Err(400)));
    let fb = get_service_a(DependencyReply::Http(504, None)).expect("timeout degrades");
    assert_eq!(fb.key_one, "Timed out");
    assert!(matches!(get_service_c(DependencyReply::Unreachable), Err(500)));
    // The time dependency has no fallback: its 504 is a hard failure.
    assert!(matches!(get_service_c(DependencyReply::Http(504, None)), Err(400)));
    let ok = get_service_c(DependencyReply::Http(204, Some(TimeModel { key_time: 3 })))
        .expect("success parses");
    assert_eq!(ok.key_time, 3);
}

#[test]
fn plan_uses_query_param_and_reinjects_context() {
    let inbound = Carrier {
        traceparent: Some(String::from(
            "00-4bf92f3577b34da6a3ce929d0e0e4736-00f067aa0ba902b7-01",
        )),
    };
    let (call_a, call_c) = plan_calls(
        &inbound,
        Some(String::from("90210")),
        "http://svc-a",
        "http://svc-c",
    );
    assert_eq!(call_a.url, "http://svc-a/route?p=90210");
    assert_eq!(call_c.url, "http://svc-c/time");
    assert_eq!(
        call_a.carrier.traceparent.as_deref(),
        Some("00-4bf92f3577b34da6a3ce929d0e0e4736-00f067aa0ba902b7-01")
    );
    assert_eq!(
        call_c.carrier.traceparent.as_deref(),
        Some("00-4bf92f3577b34da6a3ce929d0e0e4736-00f067aa0ba902b7-01")
    );
}

#[test]
fn plan_defaults_prefix_and_tolerates_bad_carrier() {
    let inbound = Carrier { traceparent: Some(String::from("garbage")) };
    let (call_a, call_c) = plan_calls(&inbound, None, "http://svc-a", "http://svc-c");
    assert_eq!(call_a.url, "http://svc-a/route?p=Unknown");
    assert!(call_a.carrier.traceparent.is_none());
    assert!(call_c.carrier.traceparent.is_none());
}

#[test]
fn main_fake_1() {
    let s = "one";
    assert_eq!("one", s);
}

use batch_gateway::handler::{
    admission, bearer_token, next_wait_action, resolve_request_id, wait_step, Admission, ApiError, WaitAction, WaitEvent,
    WaitStep,
};
use batch_gateway::record::RequestState;
use batch_gateway::status::RequestStatus;

fn record(id: &str) -> RequestState {
    RequestState::new(id.to_string(), "{\"model\":\"m\"}".to_string(), "sk-A".to_string(), 1)
}

#[test]
fn bearer_token_extracted() {
    match bearer_token(Some("Bearer sk-A")) {
        Ok(k) => assert_eq!(k, "sk-A"),
        Err(_) => panic!("expected a token"),
    }
    match bearer_token(Some("Bearer ")) {
        Ok(k) => assert_eq!(k, ""),
        Err(_) => panic!("expected an empty token"),
    }
}

#[test]
fn bearer_token_missing_or_malformed() {
    assert!(matches!(bearer_token(None), Err(ApiError::MissingApiKey)));
    assert!(matches!(bearer_token(Some("Basic abc")), Err(ApiError::MissingApiKey)));
    assert!(matches!(bearer_token(Some("bearer sk-A")), Err(ApiError::MissingApiKey)));
    assert!(matches!(bearer_token(Some("Bearer")), Err(ApiError::MissingApiKey)));
    assert!(matches!(bearer_token(Some("")), Err(ApiError::MissingApiKey)));
}

#[test]
fn request_id_prefers_idempotency_key() {
    assert_eq!(resolve_request_id(Some("k1".to_string()), "gen".to_string()), "k1");
    assert_eq!(resolve_request_id(None, "gen".to_string()), "gen");
}

#[test]
fn error_status_and_message() {
    let e = ApiError::MissingApiKey;
    assert_eq!(e.status_code(), 401);
    assert_eq!(e.message(), "Authorization header with Bearer token is required");
    let e = ApiError::InternalError("store down".to_string());
    assert_eq!(e.status_code(), 500);
    assert_eq!(e.message(), "store down");
    let e = ApiError::BatchFailed("Batch expired".to_string());
    assert_eq!(e.status_code(), 500);
    assert_eq!(e.message(), "Batch processing failed: Batch expired");
}

#[test]
fn absent_record_is_created() {
    assert!(matches!(admission(&None), Admission::Create));
}

#[test]
fn in_flight_record_is_waited_on() {
    let mut s = record("k2");
    assert!(matches!(admission(&Some(s.duplicate())), Admission::Wait));
    s.update_status(RequestStatus::Batching, Some("b".to_string()), 2);
    assert!(matches!(admission(&Some(s.duplicate())), Admission::Wait));
    s.update_status(RequestStatus::Processing, Some("b".to_string()), 3);
    assert!(matches!(admission(&Some(s)), Admission::Wait));
}

#[test]
fn completed_record_answers_from_cache() {
    let mut s = record("k3");
    s.complete("{\"id\":\"R\"}".to_string(), 2);
    match admission(&Some(s)) {
        Admission::Respond(body) => assert_eq!(body, "{\"id\":\"R\"}"),
        other => panic!("unexpected {:?}", other),
    }
}

#[test]
fn completed_record_without_result_is_internal_error() {
    let mut s = record("k3");
    s.status = RequestStatus::Complete;
    match admission(&Some(s)) {
        Admission::Reject(ApiError::InternalError(m)) => assert_eq!(m, "No result found for completed request"),
        other => panic!("unexpected {:?}", other),
    }
}

#[test]
fn failed_record_is_rejected() {
    let mut s = record("k6");
    s.fail("Batch expired".to_string(), 2);
    match admission(&Some(s)) {
        Admission::Reject(ApiError::BatchFailed(m)) => assert_eq!(m, "Batch expired"),
        other => panic!("unexpected {:?}", other),
    }
    let mut t = record("k6");
    t.status = RequestStatus::Failed;
    match admission(&Some(t)) {
        Admission::Reject(ApiError::BatchFailed(m)) => assert_eq!(m, "Unknown error"),
        other => panic!("unexpected {:?}", other),
    }
}

#[test]
fn wait_step_outcomes() {
    assert!(matches!(wait_step(&None), WaitStep::KeepWaiting));
    let mut s = record("k");
    assert!(matches!(wait_step(&Some(s.duplicate())), WaitStep::KeepWaiting));
    s.update_status(RequestStatus::Processing, Some("b".to_string()), 2);
    assert!(matches!(wait_step(&Some(s.duplicate())), WaitStep::KeepWaiting));
    let mut odd = s.duplicate();
    odd.status = RequestStatus::Complete;
    assert!(matches!(wait_step(&Some(odd)), WaitStep::KeepWaiting));
    s.complete("{\"id\":\"R\"}".to_string(), 3);
    match wait_step(&Some(s)) {
        WaitStep::Finished(Ok(b)) => assert_eq!(b, "{\"id\":\"R\"}"),
        other => panic!("unexpected {:?}", other),
    }
    let mut f = record("k");
    f.fail("Batch cancelled".to_string(), 2);
    match wait_step(&Some(f)) {
        WaitStep::Finished(Err(ApiError::BatchFailed(m))) => assert_eq!(m, "Batch cancelled"),
        other => panic!("unexpected {:?}", other),
    }
}

#[test]
fn wait_loop_rechecks_after_every_subscription() {
    assert_eq!(next_wait_action(WaitEvent::Subscribed), WaitAction::Recheck);
    assert_eq!(next_wait_action(WaitEvent::Message), WaitAction::Recheck);
    assert_eq!(next_wait_action(WaitEvent::Timeout), WaitAction::Recheck);
    assert_eq!(next_wait_action(WaitEvent::StreamEnded), WaitAction::Subscribe);
    assert_eq!(next_wait_action(WaitEvent::StillRunning), WaitAction::Listen);
}

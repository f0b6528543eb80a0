use exam_session::lifecycle::CreateOutcome;
use exam_session::lifecycle::CreateRequest;
use exam_session::lifecycle::FetchOutcome;
use exam_session::lifecycle::SubmitOutcome;
use exam_session::lifecycle::SubmitRequest;
use exam_session::lifecycle::ValidationError;
use exam_session::lifecycle::advisory_message;
use exam_session::lifecycle::create_test;
use exam_session::lifecycle::fetch_test;
use exam_session::lifecycle::submit;
use exam_session::store::SessionStore;
use exam_session::timeline::LogEvent;

const TEACHER: &str = "550e8400-e29b-41d4-a716-446655440000";

fn create_req(code: &str, payload: &str, duration: i32) -> CreateRequest {
    CreateRequest {
        test_code: code.to_string(),
        encrypted_payload: payload.to_string(),
        duration_minutes: duration,
        allow_corrections: true,
        teacher_id: TEACHER.to_string(),
    }
}

fn submit_req(code: &str, payload: &str, log: Vec<LogEvent>) -> SubmitRequest {
    SubmitRequest {
        test_code: code.to_string(),
        encrypted_payload: payload.to_string(),
        activity_log: log,
        student_name: None,
    }
}

#[test]
fn create_computes_expiry_and_stores_row() {
    let mut store = SessionStore::new();
    let r = create_test(&mut store, 1_000_000, create_req("123456", "blob-a", 30));
    assert_eq!(
        r,
        CreateOutcome::Created {
            test_id: 0,
            code: "123456".to_string(),
            expires_at: 1_000_000 + 40 * 60_000,
        }
    );
    assert_eq!(store.tests.len(), 1);
    let t = &store.tests[0];
    assert_eq!(t.id, 0);
    assert_eq!(t.code, "123456");
    assert_eq!(t.encrypted_payload, "blob-a");
    assert_eq!(t.duration_minutes, 30);
    assert_eq!(t.created_at, 1_000_000);
    assert_eq!(t.expires_at, 3_400_000);
    assert!(t.allow_corrections);
    assert_eq!(t.owner_id, 0x550e8400_e29b_41d4_a716_446655440000u128);
}

#[test]
fn create_rejects_bad_code_and_duration() {
    let mut store = SessionStore::new();
    let r = create_test(&mut store, 0, create_req("12345", "blob", 30));
    assert_eq!(r, CreateOutcome::BadRequest { error: ValidationError::InvalidFormat });
    let r = create_test(&mut store, 0, create_req("abcdef", "blob", 30));
    assert_eq!(r, CreateOutcome::BadRequest { error: ValidationError::InvalidFormat });
    let r = create_test(&mut store, 0, create_req("123456", "blob", 0));
    assert_eq!(r, CreateOutcome::BadRequest { error: ValidationError::OutOfRange });
    let r = create_test(&mut store, 0, create_req("123456", "blob", 241));
    assert_eq!(r, CreateOutcome::BadRequest { error: ValidationError::OutOfRange });
    assert!(store.tests.is_empty());
}

#[test]
fn create_rejects_malformed_teacher_id() {
    let mut store = SessionStore::new();
    let mut req = create_req("123456", "blob", 30);
    req.teacher_id = "not-a-uuid".to_string();
    let r = create_test(&mut store, 0, req);
    assert_eq!(r, CreateOutcome::BadRequest { error: ValidationError::InvalidOwner });
    assert!(store.tests.is_empty());
}

#[test]
fn duplicate_live_code_conflicts_and_mutates_nothing() {
    let mut store = SessionStore::new();
    let r = create_test(&mut store, 0, create_req("123456", "original", 60));
    assert!(matches!(r, CreateOutcome::Created { .. }));
    let r = create_test(&mut store, 1_000, create_req("123456", "usurper", 60));
    assert_eq!(r, CreateOutcome::Conflict);
    assert_eq!(store.tests.len(), 1);
    assert_eq!(store.tests[0].encrypted_payload, "original");
    assert_eq!(store.next_test_id, 1);
}

#[test]
fn expired_code_can_be_reused() {
    let mut store = SessionStore::new();
    create_test(&mut store, 0, create_req("123456", "first", 1));
    // The first test expires at 11 minutes; at that instant it is no longer
    // live, so the code is free again while the row still exists.
    let expiry = 11 * 60_000;
    let r = create_test(&mut store, expiry, create_req("123456", "second", 1));
    assert!(matches!(r, CreateOutcome::Created { .. }));
    assert_eq!(store.tests.len(), 2);
}

#[test]
fn fetch_rejects_bad_code_independent_of_store() {
    let store = SessionStore::new();
    assert_eq!(fetch_test(&store, 0, "12345"), FetchOutcome::BadRequest);
    assert_eq!(fetch_test(&store, 0, "12e456"), FetchOutcome::BadRequest);
}

#[test]
fn fetch_returns_live_payload() {
    let mut store = SessionStore::new();
    create_test(&mut store, 0, create_req("654321", "payload-x", 45));
    let r = fetch_test(&store, 10_000, "654321");
    assert_eq!(
        r,
        FetchOutcome::Found {
            encrypted_payload: "payload-x".to_string(),
            duration_minutes: 45,
            allow_corrections: true,
        }
    );
}

#[test]
fn fetch_after_expiry_is_not_found_though_row_remains() {
    let mut store = SessionStore::new();
    create_test(&mut store, 0, create_req("123456", "payload", 1));
    let expiry = 11 * 60_000;
    assert_eq!(fetch_test(&store, expiry - 1, "123456"), FetchOutcome::Found {
        encrypted_payload: "payload".to_string(),
        duration_minutes: 1,
        allow_corrections: true,
    });
    assert_eq!(fetch_test(&store, expiry, "123456"), FetchOutcome::NotFound);
    assert_eq!(fetch_test(&store, expiry + 1, "123456"), FetchOutcome::NotFound);
    assert_eq!(store.tests.len(), 1);
}

#[test]
fn fetch_unknown_code_is_not_found() {
    let store = SessionStore::new();
    assert_eq!(fetch_test(&store, 0, "111111"), FetchOutcome::NotFound);
}

#[test]
fn submit_succeeds_against_expired_test() {
    let mut store = SessionStore::new();
    create_test(&mut store, 0, create_req("123456", "payload", 1));
    let long_after = 100 * 60_000;
    let r = submit(&mut store, long_after, submit_req("123456", "answers", vec![]));
    assert_eq!(r, SubmitOutcome::Accepted { submission_id: 0, suspicious: false });
    assert_eq!(store.submissions.len(), 1);
    let s = &store.submissions[0];
    assert_eq!(s.test_id, 0);
    assert_eq!(s.student_name, "Anonymous");
    assert_eq!(s.encrypted_payload, "answers");
    assert!(!s.is_suspicious);
    assert_eq!(s.submitted_at, long_after);
    assert_eq!(s.expires_at, store.tests[0].expires_at);
}

#[test]
fn submit_unknown_code_fails() {
    let mut store = SessionStore::new();
    let r = submit(&mut store, 0, submit_req("999999", "answers", vec![]));
    assert_eq!(r, SubmitOutcome::TestNotFound);
    assert!(store.submissions.is_empty());
}

#[test]
fn suspicious_submission_is_still_accepted_and_flagged() {
    let mut store = SessionStore::new();
    create_test(&mut store, 0, create_req("123456", "payload", 60));
    let log = vec![
        LogEvent { entry: 0, exit: Some(500) },
        LogEvent { entry: 400, exit: Some(900) },
    ];
    let r = submit(&mut store, 5_000, submit_req("123456", "answers", log));
    assert_eq!(r, SubmitOutcome::Accepted { submission_id: 0, suspicious: true });
    assert_eq!(store.submissions.len(), 1);
    assert!(store.submissions[0].is_suspicious);
}

#[test]
fn submit_keeps_given_student_name_and_log() {
    let mut store = SessionStore::new();
    create_test(&mut store, 0, create_req("123456", "payload", 60));
    let mut req = submit_req("123456", "answers", vec![LogEvent { entry: 0, exit: None }]);
    req.student_name = Some("Ada".to_string());
    let r = submit(&mut store, 5_000, req);
    assert_eq!(r, SubmitOutcome::Accepted { submission_id: 0, suspicious: false });
    let s = &store.submissions[0];
    assert_eq!(s.student_name, "Ada");
    assert_eq!(s.activity_log, vec![LogEvent { entry: 0, exit: None }]);
}

#[test]
fn advisory_text_differs_only_by_flag() {
    assert_eq!(advisory_message(false), "Submission successful");
    assert_eq!(advisory_message(true), "Submission recorded (flagged for review)");
}

#[test]
fn resubmission_creates_a_new_row() {
    let mut store = SessionStore::new();
    create_test(&mut store, 0, create_req("123456", "payload", 60));
    let r1 = submit(&mut store, 1_000, submit_req("123456", "try-one", vec![]));
    let r2 = submit(&mut store, 2_000, submit_req("123456", "try-two", vec![]));
    assert_eq!(r1, SubmitOutcome::Accepted { submission_id: 0, suspicious: false });
    assert_eq!(r2, SubmitOutcome::Accepted { submission_id: 1, suspicious: false });
    assert_eq!(store.submissions.len(), 2);
}

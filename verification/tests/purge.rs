use exam_session::lifecycle::CreateRequest;
use exam_session::lifecycle::PurgeCounts;
use exam_session::lifecycle::create_test;
use exam_session::lifecycle::purge_expired;
use exam_session::lifecycle::submit;
use exam_session::lifecycle::SubmitRequest;
use exam_session::store::Correction;
use exam_session::store::SessionStore;

const TEACHER: &str = "550e8400-e29b-41d4-a716-446655440000";

fn create_req(code: &str, duration: i32) -> CreateRequest {
    CreateRequest {
        test_code: code.to_string(),
        encrypted_payload: "payload".to_string(),
        duration_minutes: duration,
        allow_corrections: false,
        teacher_id: TEACHER.to_string(),
    }
}

fn submit_req(code: &str) -> SubmitRequest {
    SubmitRequest {
        test_code: code.to_string(),
        encrypted_payload: "answers".to_string(),
        activity_log: vec![],
        student_name: None,
    }
}

fn correction(id: u64, test_id: u64, expires_at: i64) -> Correction {
    Correction { id, test_id, encrypted_payload: "amendment".to_string(), expires_at }
}

#[test]
fn purge_on_empty_store_reports_zero() {
    let mut store = SessionStore::new();
    let counts = purge_expired(&mut store, 1_000_000);
    assert_eq!(counts, PurgeCounts { tests: 0, submissions: 0, corrections: 0 });
}

#[test]
fn purge_deletes_exactly_the_expired_rows_of_all_kinds() {
    let mut store = SessionStore::new();
    // A short test that expires at 11 minutes and a long one that stays live.
    create_test(&mut store, 0, create_req("111111", 1));
    create_test(&mut store, 0, create_req("222222", 240));
    // One submission inherits the short test's expiry, one the long one's.
    submit(&mut store, 1_000, submit_req("111111"));
    submit(&mut store, 1_000, submit_req("222222"));
    // One correction already expired, one still live.
    let c0 = correction(0, 0, 5_000);
    let c1 = correction(1, 1, 10_000_000);
    store.insert_correction(c0);
    store.insert_correction(c1);

    let now = 12 * 60_000;
    let counts = purge_expired(&mut store, now);
    assert_eq!(counts, PurgeCounts { tests: 1, submissions: 1, corrections: 1 });

    assert_eq!(store.tests.len(), 1);
    assert_eq!(store.tests[0].code, "222222");
    assert_eq!(store.submissions.len(), 1);
    assert_eq!(store.submissions[0].test_id, 1);
    assert_eq!(store.corrections.len(), 1);
    assert_eq!(store.corrections[0].id, 1);
    // Surviving rows all have an expiry at or after the purge instant.
    assert!(store.tests[0].expires_at >= now);
    assert!(store.submissions[0].expires_at >= now);
    assert!(store.corrections[0].expires_at >= now);
}

#[test]
fn purge_keeps_rows_expiring_exactly_now() {
    let mut store = SessionStore::new();
    create_test(&mut store, 0, create_req("123456", 1));
    let expiry = 11 * 60_000;
    let counts = purge_expired(&mut store, expiry);
    assert_eq!(counts.tests, 0);
    assert_eq!(store.tests.len(), 1);
    let counts = purge_expired(&mut store, expiry + 1);
    assert_eq!(counts.tests, 1);
    assert!(store.tests.is_empty());
}

#[test]
fn purge_leaves_identifier_counters_alone() {
    let mut store = SessionStore::new();
    create_test(&mut store, 0, create_req("123456", 1));
    submit(&mut store, 0, submit_req("123456"));
    purge_expired(&mut store, 100 * 60_000);
    assert!(store.tests.is_empty());
    assert!(store.submissions.is_empty());
    assert_eq!(store.next_test_id, 1);
    assert_eq!(store.next_submission_id, 1);
}

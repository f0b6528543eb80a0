//! The lifecycle controller: creation, fetch, submission and purge.
//!
//! Each operation is stateless between requests: it takes the store, the
//! current instant in milliseconds, and a plain request, and owns every
//! business-rule decision. The transport layer around it only parses
//! requests and maps outcomes to responses.

use vstd::prelude::*;
use crate::owner::owner_id_of;
use crate::owner::parse_owner_id;
use crate::store::SessionStore;
use crate::store::Submission;
use crate::store::Test;
use crate::store::code_match;
use crate::store::has_live_test_with_code;
use crate::store::has_test_with_code;
use crate::store::live_match;
use crate::store::retained_corrections;
use crate::store::retained_submissions;
use crate::store::retained_tests;
use crate::timeline::LogEvent;
use crate::timeline::analyze_timeline;
use crate::timeline::suspicious;
use crate::timing::MAX_EXPIRY_OFFSET_MILLIS;
use crate::timing::compute_expires_at;
use crate::timing::expiry_of;
use crate::validate::is_valid_code;
use crate::validate::is_valid_duration;
use crate::validate::validate_code;
use crate::validate::validate_duration;

verus! {

/// Why a request was rejected before any store access.
#[derive(Clone, Copy, PartialEq, Eq, Structural, Debug)]
pub enum ValidationError {
    /// The access code is not exactly six ASCII digits.
    InvalidFormat,
    /// The duration is outside 1 through 240 minutes.
    OutOfRange,
    /// The teacher identifier does not parse as a UUID.
    InvalidOwner,
}

/// A creation request as handed over by the transport layer.
pub struct CreateRequest {
    pub test_code: String,
    pub encrypted_payload: String,
    pub duration_minutes: i32,
    pub allow_corrections: bool,
    pub teacher_id: String,
}

/// The outcome of a creation attempt.
#[derive(Debug, PartialEq, Eq)]
pub enum CreateOutcome {
    /// Exactly one row was inserted; the code is echoed back.
    Created { test_id: u64, code: String, expires_at: i64 },
    /// A live row with the same code already exists; nothing was mutated.
    Conflict,
    /// The request failed validation; the store was never touched.
    BadRequest { error: ValidationError },
}

/// The outcome of a fetch. A missing code and an expired code are reported
/// identically as `NotFound`, so that expired codes do not leak existence.
#[derive(Debug, PartialEq, Eq)]
pub enum FetchOutcome {
    Found { encrypted_payload: String, duration_minutes: i32, allow_corrections: bool },
    NotFound,
    /// The code is not exactly six ASCII digits: a request error, not a miss.
    BadRequest,
}

/// A submission request as handed over by the transport layer.
pub struct SubmitRequest {
    pub test_code: String,
    pub encrypted_payload: String,
    pub activity_log: Vec<LogEvent>,
    pub student_name: Option<String>,
}

/// The outcome of a submission attempt. A suspicious submission is still
/// accepted and stored; the flag is advisory only.
#[derive(Debug, PartialEq, Eq)]
pub enum SubmitOutcome {
    Accepted { submission_id: u64, suspicious: bool },
    /// No test with this code exists in any liveness state.
    TestNotFound,
}

/// Rows deleted by a purge, per kind.
#[derive(Clone, Copy, PartialEq, Eq, Structural, Debug)]
pub struct PurgeCounts {
    pub tests: usize,
    pub submissions: usize,
    pub corrections: usize,
}

/// The row a successful creation appends: every field fixed by the request,
/// the instant of creation and the store's next identifier.
pub open spec fn created_row_matches(
    t: Test,
    id: u64,
    code: Seq<char>,
    payload: Seq<char>,
    duration: i32,
    allow: bool,
    owner: u128,
    now: int,
) -> bool {
    &&& t.id == id
    &&& t.code@ == code
    &&& t.encrypted_payload@ == payload
    &&& t.duration_minutes == duration
    &&& t.created_at == now
    &&& t.expires_at == expiry_of(now, duration as int)
    &&& t.allow_corrections == allow
    &&& t.owner_id == owner
}

/// Creates a test: validates the code format and the duration, parses the
/// teacher identifier, computes the expiry instant, and atomically inserts
/// unless a live row with the same code exists. Validation failures are
/// reported before any store access; a conflict mutates nothing.
pub fn create_test(store: &mut SessionStore, now: i64, req: CreateRequest) -> (r: CreateOutcome)
    requires
        now <= i64::MAX - MAX_EXPIRY_OFFSET_MILLIS,
        old(store).next_test_id < u64::MAX,
    ensures
        !is_valid_code(req.test_code@) ==> r == (CreateOutcome::BadRequest {
            error: ValidationError::InvalidFormat,
        }) && *final(store) == *old(store),
        is_valid_code(req.test_code@) && !is_valid_duration(req.duration_minutes as int) ==> r
            == (CreateOutcome::BadRequest { error: ValidationError::OutOfRange }) && *final(store)
            == *old(store),
        is_valid_code(req.test_code@) && is_valid_duration(req.duration_minutes as int)
            && owner_id_of(req.teacher_id@) is None ==> r == (CreateOutcome::BadRequest {
            error: ValidationError::InvalidOwner,
        }) && *final(store) == *old(store),
        is_valid_code(req.test_code@) && is_valid_duration(req.duration_minutes as int)
            && owner_id_of(req.teacher_id@) is Some && has_live_test_with_code(
            old(store).tests@,
            req.test_code@,
            now as int,
        ) ==> r == CreateOutcome::Conflict && *final(store) == *old(store),
        is_valid_code(req.test_code@) && is_valid_duration(req.duration_minutes as int)
            && owner_id_of(req.teacher_id@) is Some && !has_live_test_with_code(
            old(store).tests@,
            req.test_code@,
            now as int,
        ) ==> {
            &&& r matches CreateOutcome::Created { test_id, code, expires_at } && test_id == old(
                store,
            ).next_test_id && code@ == req.test_code@ && expires_at == expiry_of(
                now as int,
                req.duration_minutes as int,
            )
            &&& final(store).tests@ == old(store).tests@.push(final(store).tests@.last())
            &&& created_row_matches(
                final(store).tests@.last(),
                old(store).next_test_id,
                req.test_code@,
                req.encrypted_payload@,
                req.duration_minutes,
                req.allow_corrections,
                owner_id_of(req.teacher_id@)->0,
                now as int,
            )
            &&& final(store).next_test_id == old(store).next_test_id + 1
            &&& final(store).submissions == old(store).submissions
            &&& final(store).corrections == old(store).corrections
            &&& final(store).next_submission_id == old(store).next_submission_id
            &&& final(store).next_correction_id == old(store).next_correction_id
        },
{
    if !validate_code(req.test_code.as_str()) {
        return CreateOutcome::BadRequest { error: ValidationError::InvalidFormat };
    }
    if !validate_duration(req.duration_minutes) {
        return CreateOutcome::BadRequest { error: ValidationError::OutOfRange };
    }
    let owner = match parse_owner_id(req.teacher_id.as_str()) {
        None => {
            return CreateOutcome::BadRequest { error: ValidationError::InvalidOwner };
        },
        Some(o) => o,
    };
    let created_at = now;
    let expires_at = compute_expires_at(created_at, req.duration_minutes);
    let code_echo = req.test_code.clone();
    let test_id = store.next_test_id;
    let t = Test {
        id: test_id,
        code: req.test_code,
        encrypted_payload: req.encrypted_payload,
        duration_minutes: req.duration_minutes,
        created_at,
        expires_at,
        allow_corrections: req.allow_corrections,
        owner_id: owner,
    };
    let inserted = store.insert_test_if_absent(t, now);
    if inserted {
        CreateOutcome::Created { test_id, code: code_echo, expires_at }
    } else {
        CreateOutcome::Conflict
    }
}

/// Fetches the payload of a live test by code. Any code that is not six
/// ASCII digits is a request error; a code with no live row — whether it
/// never existed or has expired — is `NotFound`. Nothing is mutated.
pub fn fetch_test(store: &SessionStore, now: i64, code: &str) -> (r: FetchOutcome)
    ensures
        !is_valid_code(code@) ==> r == FetchOutcome::BadRequest,
        is_valid_code(code@) && !has_live_test_with_code(store.tests@, code@, now as int) ==> r
            == FetchOutcome::NotFound,
        is_valid_code(code@) && has_live_test_with_code(store.tests@, code@, now as int) ==> (
        exists|i: int|
            0 <= i < store.tests@.len() && live_match(#[trigger] store.tests@[i], code@, now as int)
                && (r matches FetchOutcome::Found {
                encrypted_payload,
                duration_minutes,
                allow_corrections,
            } && encrypted_payload@ == store.tests@[i].encrypted_payload@ && duration_minutes
                == store.tests@[i].duration_minutes && allow_corrections
                == store.tests@[i].allow_corrections)),
{
    if !validate_code(code) {
        return FetchOutcome::BadRequest;
    }
    let owned = code.to_owned();
    match store.find_live_test_by_code(&owned, now) {
        None => FetchOutcome::NotFound,
        Some(i) => {
            let t = &store.tests[i];
            FetchOutcome::Found {
                encrypted_payload: t.encrypted_payload.clone(),
                duration_minutes: t.duration_minutes,
                allow_corrections: t.allow_corrections,
            }
        },
    }
}

/// The submission row a successful submission appends for the given request
/// fields, flag, instant, identifier and resolved test.
pub open spec fn submitted_row_matches(
    s: Submission,
    id: u64,
    req: SubmitRequest,
    test_id: u64,
    test_expires_at: i64,
    now: int,
) -> bool {
    &&& s.id == id
    &&& s.test_id == test_id
    &&& (match req.student_name {
        Some(name) => s.student_name@ == name@,
        None => s.student_name@ == "Anonymous"@,
    })
    &&& s.encrypted_payload@ == req.encrypted_payload@
    &&& s.activity_log@ == req.activity_log@
    &&& s.is_suspicious == suspicious(req.activity_log@)
    &&& s.submitted_at == now
    &&& s.expires_at == test_expires_at
}

/// Submits answers against a test resolved by code. Existence alone gates
/// the submission: an expired test still accepts it, and only a code with no
/// matching test at all fails. The activity log is classified once, here,
/// and the flag stored immutably; a suspicious submission is still accepted.
pub fn submit(store: &mut SessionStore, now: i64, req: SubmitRequest) -> (r: SubmitOutcome)
    requires
        old(store).next_submission_id < u64::MAX,
    ensures
        !has_test_with_code(old(store).tests@, req.test_code@) ==> r == SubmitOutcome::TestNotFound
            && *final(store) == *old(store),
        has_test_with_code(old(store).tests@, req.test_code@) ==> {
            &&& r matches SubmitOutcome::Accepted { submission_id, suspicious: flagged }
                && submission_id == old(store).next_submission_id && flagged == suspicious(
                req.activity_log@,
            )
            &&& final(store).submissions@ == old(store).submissions@.push(
                final(store).submissions@.last(),
            )
            &&& (exists|i: int|
                0 <= i < old(store).tests@.len() && code_match(
                    #[trigger] old(store).tests@[i],
                    req.test_code@,
                ) && submitted_row_matches(
                    final(store).submissions@.last(),
                    old(store).next_submission_id,
                    req,
                    old(store).tests@[i].id,
                    old(store).tests@[i].expires_at,
                    now as int,
                ))
            &&& final(store).next_submission_id == old(store).next_submission_id + 1
            &&& final(store).tests == old(store).tests
            &&& final(store).corrections == old(store).corrections
            &&& final(store).next_test_id == old(store).next_test_id
            &&& final(store).next_correction_id == old(store).next_correction_id
        },
{
    let idx = match store.find_test_by_code(&req.test_code) {
        None => {
            return SubmitOutcome::TestNotFound;
        },
        Some(i) => i,
    };
    let flagged = analyze_timeline(&req.activity_log);
    let resolved_test_id = store.tests[idx].id;
    let resolved_expires_at = store.tests[idx].expires_at;
    let student_name = match req.student_name {
        Some(name) => name,
        None => "Anonymous".to_owned(),
    };
    let submission_id = store.next_submission_id;
    let s = Submission {
        id: submission_id,
        test_id: resolved_test_id,
        student_name,
        encrypted_payload: req.encrypted_payload,
        activity_log: req.activity_log,
        is_suspicious: flagged,
        submitted_at: now,
        expires_at: resolved_expires_at,
    };
    store.insert_submission(s);
    SubmitOutcome::Accepted { submission_id, suspicious: flagged }
}

/// The advisory text accompanying an accepted submission. A suspicious
/// submission is accepted all the same; the two messages differ only in
/// this advisory text.
pub fn advisory_message(flagged: bool) -> (m: String)
    ensures
        flagged ==> m@ == "Submission recorded (flagged for review)"@,
        !flagged ==> m@ == "Submission successful"@,
{
    if flagged {
        "Submission recorded (flagged for review)".to_owned()
    } else {
        "Submission successful".to_owned()
    }
}

/// Purges every expired row: deletes, across all three kinds, exactly the
/// rows whose expiry instant is strictly before `now`, each kind as its own
/// unit of work, and reports accurate per-kind counts.
pub fn purge_expired(store: &mut SessionStore, now: i64) -> (r: PurgeCounts)
    ensures
        final(store).tests@ == retained_tests(old(store).tests@, now as int),
        final(store).submissions@ == retained_submissions(old(store).submissions@, now as int),
        final(store).corrections@ == retained_corrections(old(store).corrections@, now as int),
        r.tests == old(store).tests@.len() - final(store).tests@.len(),
        r.submissions == old(store).submissions@.len() - final(store).submissions@.len(),
        r.corrections == old(store).corrections@.len() - final(store).corrections@.len(),
        final(store).next_test_id == old(store).next_test_id,
        final(store).next_submission_id == old(store).next_submission_id,
        final(store).next_correction_id == old(store).next_correction_id,
{
    let tests = store.delete_expired_tests(now);
    let submissions = store.delete_expired_submissions(now);
    let corrections = store.delete_expired_corrections(now);
    PurgeCounts { tests, submissions, corrections }
}

} // verus!

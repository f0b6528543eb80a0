//! The session store: the persisted rows and the operations the lifecycle
//! rules need from them — atomic insert-unless-live-conflict, lookup by code
//! (live-only or any liveness), submission insert, and per-kind deletion of
//! expired rows.
//!
//! Rows are immutable once inserted; they leave the store only through the
//! purge operation, and expiry is purely time-derived.

use vstd::prelude::*;
use crate::timeline::LogEvent;
use crate::timing::is_live;
use crate::timing::purge_eligible;

verus! {

/// A test record, keyed by its six-digit access code. The encrypted payload
/// is an opaque blob the engine never inspects.
pub struct Test {
    pub id: u64,
    pub code: String,
    pub encrypted_payload: String,
    pub duration_minutes: i32,
    pub created_at: i64,
    pub expires_at: i64,
    pub allow_corrections: bool,
    pub owner_id: u128,
}

/// A submission recorded against a test; `is_suspicious` is computed once at
/// submission time and never recomputed. `expires_at` is inherited from the
/// test and used only for retention.
pub struct Submission {
    pub id: u64,
    pub test_id: u64,
    pub student_name: String,
    pub encrypted_payload: String,
    pub activity_log: Vec<LogEvent>,
    pub is_suspicious: bool,
    pub submitted_at: i64,
    pub expires_at: i64,
}

/// A teacher-authored amendment tied to a test. Created outside the engine's
/// responsibility; the store holds it for retention and purge symmetry.
pub struct Correction {
    pub id: u64,
    pub test_id: u64,
    pub encrypted_payload: String,
    pub expires_at: i64,
}

/// The test carries this code, live or not.
pub open spec fn code_match(t: Test, code: Seq<char>) -> bool {
    t.code@ == code
}

/// The test carries this code and is live at `now`.
pub open spec fn live_match(t: Test, code: Seq<char>, now: int) -> bool {
    t.code@ == code && is_live(t.expires_at as int, now)
}

/// Some test among `tests` carries this code, in any liveness state.
pub open spec fn has_test_with_code(tests: Seq<Test>, code: Seq<char>) -> bool {
    exists|i: int| 0 <= i < tests.len() && code_match(#[trigger] tests[i], code)
}

/// Some test among `tests` carries this code and is live at `now`.
pub open spec fn has_live_test_with_code(tests: Seq<Test>, code: Seq<char>, now: int) -> bool {
    exists|i: int| 0 <= i < tests.len() && live_match(#[trigger] tests[i], code, now)
}

/// No two distinct tests that are both live at `now` share a code.
pub open spec fn live_codes_unique(tests: Seq<Test>, now: int) -> bool {
    forall|i: int, j: int|
        0 <= i < tests.len() && 0 <= j < tests.len() && i != j
            && is_live((#[trigger] tests[i]).expires_at as int, now)
            && is_live((#[trigger] tests[j]).expires_at as int, now)
            ==> tests[i].code@ != tests[j].code@
}

/// The test rows that survive a purge at `now`: the original rows, in their
/// original order, with every purge-eligible row removed.
pub open spec fn retained_tests(tests: Seq<Test>, now: int) -> Seq<Test>
    decreases tests.len(),
{
    if tests.len() == 0 {
        Seq::empty()
    } else if purge_eligible(tests.last().expires_at as int, now) {
        retained_tests(tests.drop_last(), now)
    } else {
        retained_tests(tests.drop_last(), now).push(tests.last())
    }
}

/// The submission rows that survive a purge at `now`.
pub open spec fn retained_submissions(subs: Seq<Submission>, now: int) -> Seq<Submission>
    decreases subs.len(),
{
    if subs.len() == 0 {
        Seq::empty()
    } else if purge_eligible(subs.last().expires_at as int, now) {
        retained_submissions(subs.drop_last(), now)
    } else {
        retained_submissions(subs.drop_last(), now).push(subs.last())
    }
}

/// The correction rows that survive a purge at `now`.
pub open spec fn retained_corrections(cs: Seq<Correction>, now: int) -> Seq<Correction>
    decreases cs.len(),
{
    if cs.len() == 0 {
        Seq::empty()
    } else if purge_eligible(cs.last().expires_at as int, now) {
        retained_corrections(cs.drop_last(), now)
    } else {
        retained_corrections(cs.drop_last(), now).push(cs.last())
    }
}

/// The data-model invariant — no two live tests share a code — survives the
/// passage of time: a record that is live at a later instant was live at
/// every earlier one, so the set of live rows only shrinks and no clash can
/// appear.
pub proof fn lemma_live_codes_unique_monotonic(tests: Seq<Test>, earlier: int, later: int)
    requires
        live_codes_unique(tests, earlier),
        earlier <= later,
    ensures
        live_codes_unique(tests, later),
{
    assert forall|i: int, j: int|
        0 <= i < tests.len() && 0 <= j < tests.len() && i != j
            && is_live((#[trigger] tests[i]).expires_at as int, later)
            && is_live((#[trigger] tests[j]).expires_at as int, later)
            implies tests[i].code@ != tests[j].code@ by {
        assert(is_live(tests[i].expires_at as int, earlier));
        assert(is_live(tests[j].expires_at as int, earlier));
    }
}

/// A creation that passes the conflict check preserves the data-model
/// invariant: when no live row carries the new row's code, appending it
/// leaves no two live rows sharing a code.
pub proof fn lemma_insert_preserves_live_codes_unique(tests: Seq<Test>, t: Test, now: int)
    requires
        live_codes_unique(tests, now),
        !has_live_test_with_code(tests, t.code@, now),
    ensures
        live_codes_unique(tests.push(t), now),
{
    let pushed = tests.push(t);
    assert forall|i: int, j: int|
        0 <= i < pushed.len() && 0 <= j < pushed.len() && i != j
            && is_live((#[trigger] pushed[i]).expires_at as int, now)
            && is_live((#[trigger] pushed[j]).expires_at as int, now)
            implies pushed[i].code@ != pushed[j].code@ by {
        if i < tests.len() && j < tests.len() {
            assert(pushed[i] == tests[i]);
            assert(pushed[j] == tests[j]);
        } else if i == tests.len() {
            assert(pushed[i] == t);
            assert(pushed[j] == tests[j]);
            if pushed[j].code@ == t.code@ {
                assert(live_match(tests[j], t.code@, now));
            }
        } else {
            assert(pushed[j] == t);
            assert(pushed[i] == tests[i]);
            if pushed[i].code@ == t.code@ {
                assert(live_match(tests[i], t.code@, now));
            }
        }
    }
}

/// Purge retention for tests, characterized: a retained row is never
/// purge-eligible, and a row that is not purge-eligible is always retained —
/// the purge deletes exactly the expired rows.
pub proof fn lemma_retained_tests_exact(tests: Seq<Test>, now: int)
    ensures
        forall|i: int|
            0 <= i < retained_tests(tests, now).len() ==> !purge_eligible(
                (#[trigger] retained_tests(tests, now)[i]).expires_at as int,
                now,
            ),
        forall|i: int|
            0 <= i < tests.len() && !purge_eligible((#[trigger] tests[i]).expires_at as int, now)
                ==> retained_tests(tests, now).contains(tests[i]),
    decreases tests.len(),
{
    if tests.len() > 0 {
        let prefix = tests.drop_last();
        lemma_retained_tests_exact(prefix, now);
        let rest = retained_tests(prefix, now);
        assert forall|i: int|
            0 <= i < tests.len() && !purge_eligible((#[trigger] tests[i]).expires_at as int, now)
                implies retained_tests(tests, now).contains(tests[i]) by {
            if i < tests.len() - 1 {
                assert(prefix[i] == tests[i]);
                assert(rest.contains(tests[i]));
                let w = choose|w: int| 0 <= w < rest.len() && rest[w] == tests[i];
                assert(retained_tests(tests, now)[w] == tests[i]);
            } else {
                assert(tests[i] == tests.last());
                assert(retained_tests(tests, now).last() == tests.last());
            }
        }
    }
}

/// Purge retention for submissions, characterized as for tests.
pub proof fn lemma_retained_submissions_exact(subs: Seq<Submission>, now: int)
    ensures
        forall|i: int|
            0 <= i < retained_submissions(subs, now).len() ==> !purge_eligible(
                (#[trigger] retained_submissions(subs, now)[i]).expires_at as int,
                now,
            ),
        forall|i: int|
            0 <= i < subs.len() && !purge_eligible((#[trigger] subs[i]).expires_at as int, now)
                ==> retained_submissions(subs, now).contains(subs[i]),
    decreases subs.len(),
{
    if subs.len() > 0 {
        let prefix = subs.drop_last();
        lemma_retained_submissions_exact(prefix, now);
        let rest = retained_submissions(prefix, now);
        assert forall|i: int|
            0 <= i < subs.len() && !purge_eligible((#[trigger] subs[i]).expires_at as int, now)
                implies retained_submissions(subs, now).contains(subs[i]) by {
            if i < subs.len() - 1 {
                assert(prefix[i] == subs[i]);
                assert(rest.contains(subs[i]));
                let w = choose|w: int| 0 <= w < rest.len() && rest[w] == subs[i];
                assert(retained_submissions(subs, now)[w] == subs[i]);
            } else {
                assert(subs[i] == subs.last());
                assert(retained_submissions(subs, now).last() == subs.last());
            }
        }
    }
}

/// Purge retention for corrections, characterized as for tests.
pub proof fn lemma_retained_corrections_exact(cs: Seq<Correction>, now: int)
    ensures
        forall|i: int|
            0 <= i < retained_corrections(cs, now).len() ==> !purge_eligible(
                (#[trigger] retained_corrections(cs, now)[i]).expires_at as int,
                now,
            ),
        forall|i: int|
            0 <= i < cs.len() && !purge_eligible((#[trigger] cs[i]).expires_at as int, now)
                ==> retained_corrections(cs, now).contains(cs[i]),
    decreases cs.len(),
{
    if cs.len() > 0 {
        let prefix = cs.drop_last();
        lemma_retained_corrections_exact(prefix, now);
        let rest = retained_corrections(prefix, now);
        assert forall|i: int|
            0 <= i < cs.len() && !purge_eligible((#[trigger] cs[i]).expires_at as int, now)
                implies retained_corrections(cs, now).contains(cs[i]) by {
            if i < cs.len() - 1 {
                assert(prefix[i] == cs[i]);
                assert(rest.contains(cs[i]));
                let w = choose|w: int| 0 <= w < rest.len() && rest[w] == cs[i];
                assert(retained_corrections(cs, now)[w] == cs[i]);
            } else {
                assert(cs[i] == cs.last());
                assert(retained_corrections(cs, now).last() == cs.last());
            }
        }
    }
}

/// The persisted state: tests, submissions and corrections, plus the
/// identifier counters for rows inserted next.
pub struct SessionStore {
    pub tests: Vec<Test>,
    pub submissions: Vec<Submission>,
    pub corrections: Vec<Correction>,
    pub next_test_id: u64,
    pub next_submission_id: u64,
    pub next_correction_id: u64,
}

impl SessionStore {
    /// A store with no rows and fresh identifier counters.
    pub fn new() -> (s: SessionStore)
        ensures
            s.tests@ == Seq::<Test>::empty(),
            s.submissions@ == Seq::<Submission>::empty(),
            s.corrections@ == Seq::<Correction>::empty(),
            s.next_test_id == 0,
            s.next_submission_id == 0,
            s.next_correction_id == 0,
    {
        SessionStore {
            tests: Vec::new(),
            submissions: Vec::new(),
            corrections: Vec::new(),
            next_test_id: 0,
            next_submission_id: 0,
            next_correction_id: 0,
        }
    }

    /// `findLiveTestByCode`: the first test carrying `code` that is live at
    /// `now`, or `None` when no live test carries it.
    pub fn find_live_test_by_code(&self, code: &String, now: i64) -> (r: Option<usize>)
        ensures
            match r {
                Some(i) => 0 <= i < self.tests@.len()
                    && live_match(self.tests@[i as int], code@, now as int)
                    && (forall|j: int|
                        0 <= j < i ==> !live_match(#[trigger] self.tests@[j], code@, now as int)),
                None => !has_live_test_with_code(self.tests@, code@, now as int),
            },
    {
        let n = self.tests.len();
        let mut i: usize = 0;
        while i < n
            invariant
                n == self.tests@.len(),
                0 <= i <= n,
                forall|j: int| 0 <= j < i ==> !live_match(#[trigger] self.tests@[j], code@, now as int),
            decreases n - i,
        {
            let t = &self.tests[i];
            if t.code == *code && now < t.expires_at {
                return Some(i);
            }
            i += 1;
        }
        None
    }

    /// `findTestByCode`: the first test carrying `code`, in any liveness
    /// state, or `None` when no test at all carries it.
    pub fn find_test_by_code(&self, code: &String) -> (r: Option<usize>)
        ensures
            match r {
                Some(i) => 0 <= i < self.tests@.len()
                    && code_match(self.tests@[i as int], code@)
                    && (forall|j: int| 0 <= j < i ==> !code_match(#[trigger] self.tests@[j], code@)),
                None => !has_test_with_code(self.tests@, code@),
            },
    {
        let n = self.tests.len();
        let mut i: usize = 0;
        while i < n
            invariant
                n == self.tests@.len(),
                0 <= i <= n,
                forall|j: int| 0 <= j < i ==> !code_match(#[trigger] self.tests@[j], code@),
            decreases n - i,
        {
            let t = &self.tests[i];
            if t.code == *code {
                return Some(i);
            }
            i += 1;
        }
        None
    }

    /// `insertTestIfAbsent`: in one atomic step, check for a live row with
    /// the same code and insert only when there is none. A conflicting live
    /// row leaves the store untouched; expired rows with the same code do not
    /// block the insert.
    pub fn insert_test_if_absent(&mut self, t: Test, now: i64) -> (inserted: bool)
        requires
            old(self).next_test_id < u64::MAX,
            t.id == old(self).next_test_id,
        ensures
            inserted == !has_live_test_with_code(old(self).tests@, t.code@, now as int),
            !inserted ==> *final(self) == *old(self),
            inserted ==> final(self).tests@ == old(self).tests@.push(t)
                && final(self).next_test_id == old(self).next_test_id + 1
                && final(self).submissions == old(self).submissions
                && final(self).corrections == old(self).corrections
                && final(self).next_submission_id == old(self).next_submission_id
                && final(self).next_correction_id == old(self).next_correction_id,
    {
        match self.find_live_test_by_code(&t.code, now) {
            Some(_) => false,
            None => {
                self.tests.push(t);
                self.next_test_id = self.next_test_id + 1;
                true
            },
        }
    }

    /// `insertSubmission`: appends the row the caller has fully determined
    /// and returns its identifier.
    pub fn insert_submission(&mut self, s: Submission) -> (id: u64)
        requires
            old(self).next_submission_id < u64::MAX,
            s.id == old(self).next_submission_id,
        ensures
            id == s.id,
            final(self).submissions@ == old(self).submissions@.push(s),
            final(self).next_submission_id == old(self).next_submission_id + 1,
            final(self).tests == old(self).tests,
            final(self).corrections == old(self).corrections,
            final(self).next_test_id == old(self).next_test_id,
            final(self).next_correction_id == old(self).next_correction_id,
    {
        let id = s.id;
        self.submissions.push(s);
        self.next_submission_id = self.next_submission_id + 1;
        id
    }

    /// Appends a correction row and returns its identifier. Corrections are
    /// authored outside the engine; the store accepts them so that retention
    /// and purge cover all three kinds.
    pub fn insert_correction(&mut self, c: Correction) -> (id: u64)
        requires
            old(self).next_correction_id < u64::MAX,
            c.id == old(self).next_correction_id,
        ensures
            id == c.id,
            final(self).corrections@ == old(self).corrections@.push(c),
            final(self).next_correction_id == old(self).next_correction_id + 1,
            final(self).tests == old(self).tests,
            final(self).submissions == old(self).submissions,
            final(self).next_test_id == old(self).next_test_id,
            final(self).next_submission_id == old(self).next_submission_id,
    {
        let id = c.id;
        self.corrections.push(c);
        self.next_correction_id = self.next_correction_id + 1;
        id
    }

    /// `deleteExpired` for tests: removes every test row whose expiry
    /// instant is strictly before `now` and reports how many were removed.
    pub fn delete_expired_tests(&mut self, now: i64) -> (count: usize)
        ensures
            final(self).tests@ == retained_tests(old(self).tests@, now as int),
            count == old(self).tests@.len() - final(self).tests@.len(),
            final(self).submissions == old(self).submissions,
            final(self).corrections == old(self).corrections,
            final(self).next_test_id == old(self).next_test_id,
            final(self).next_submission_id == old(self).next_submission_id,
            final(self).next_correction_id == old(self).next_correction_id,
    {
        let mut drained: Vec<Test> = Vec::new();
        core::mem::swap(&mut self.tests, &mut drained);
        let total: usize = drained.len();
        let mut count: usize = 0;
        let ghost orig: Seq<Test> = drained@;
        let ghost mut k: int = 0;
        proof {
            assert(orig.skip(0) =~= orig);
            assert(orig.take(0) =~= Seq::<Test>::empty());
        }
        while drained.len() > 0
            invariant
                total == orig.len(),
                0 <= k <= total,
                k == total - drained@.len(),
                drained@ == orig.skip(k),
                self.tests@ == retained_tests(orig.take(k), now as int),
                count as int == k - self.tests@.len(),
                self.submissions == old(self).submissions,
                self.corrections == old(self).corrections,
                self.next_test_id == old(self).next_test_id,
                self.next_submission_id == old(self).next_submission_id,
                self.next_correction_id == old(self).next_correction_id,
            decreases drained@.len(),
        {
            let t = drained.remove(0);
            proof {
                assert(orig.skip(k)[0] == orig[k]);
                assert(orig.skip(k).remove(0) =~= orig.skip(k + 1));
                assert(orig.take(k + 1).drop_last() =~= orig.take(k));
                assert(orig.take(k + 1).last() == orig[k]);
                k = k + 1;
            }
            if t.expires_at < now {
                count = count + 1;
            } else {
                self.tests.push(t);
            }
        }
        proof {
            assert(orig.take(total as int) =~= orig);
        }
        count
    }

    /// `deleteExpired` for submissions: removes every submission row whose
    /// expiry instant is strictly before `now` and reports the count.
    pub fn delete_expired_submissions(&mut self, now: i64) -> (count: usize)
        ensures
            final(self).submissions@ == retained_submissions(old(self).submissions@, now as int),
            count == old(self).submissions@.len() - final(self).submissions@.len(),
            final(self).tests == old(self).tests,
            final(self).corrections == old(self).corrections,
            final(self).next_test_id == old(self).next_test_id,
            final(self).next_submission_id == old(self).next_submission_id,
            final(self).next_correction_id == old(self).next_correction_id,
    {
        let mut drained: Vec<Submission> = Vec::new();
        core::mem::swap(&mut self.submissions, &mut drained);
        let total: usize = drained.len();
        let mut count: usize = 0;
        let ghost orig: Seq<Submission> = drained@;
        let ghost mut k: int = 0;
        proof {
            assert(orig.skip(0) =~= orig);
            assert(orig.take(0) =~= Seq::<Submission>::empty());
        }
        while drained.len() > 0
            invariant
                total == orig.len(),
                0 <= k <= total,
                k == total - drained@.len(),
                drained@ == orig.skip(k),
                self.submissions@ == retained_submissions(orig.take(k), now as int),
                count as int == k - self.submissions@.len(),
                self.tests == old(self).tests,
                self.corrections == old(self).corrections,
                self.next_test_id == old(self).next_test_id,
                self.next_submission_id == old(self).next_submission_id,
                self.next_correction_id == old(self).next_correction_id,
            decreases drained@.len(),
        {
            let s = drained.remove(0);
            proof {
                assert(orig.skip(k)[0] == orig[k]);
                assert(orig.skip(k).remove(0) =~= orig.skip(k + 1));
                assert(orig.take(k + 1).drop_last() =~= orig.take(k));
                assert(orig.take(k + 1).last() == orig[k]);
                k = k + 1;
            }
            if s.expires_at < now {
                count = count + 1;
            } else {
                self.submissions.push(s);
            }
        }
        proof {
            assert(orig.take(total as int) =~= orig);
        }
        count
    }

    /// `deleteExpired` for corrections: removes every correction row whose
    /// expiry instant is strictly before `now` and reports the count.
    pub fn delete_expired_corrections(&mut self, now: i64) -> (count: usize)
        ensures
            final(self).corrections@ == retained_corrections(old(self).corrections@, now as int),
            count == old(self).corrections@.len() - final(self).corrections@.len(),
            final(self).tests == old(self).tests,
            final(self).submissions == old(self).submissions,
            final(self).next_test_id == old(self).next_test_id,
            final(self).next_submission_id == old(self).next_submission_id,
            final(self).next_correction_id == old(self).next_correction_id,
    {
        let mut drained: Vec<Correction> = Vec::new();
        core::mem::swap(&mut self.corrections, &mut drained);
        let total: usize = drained.len();
        let mut count: usize = 0;
        let ghost orig: Seq<Correction> = drained@;
        let ghost mut k: int = 0;
        proof {
            assert(orig.skip(0) =~= orig);
            assert(orig.take(0) =~= Seq::<Correction>::empty());
        }
        while drained.len() > 0
            invariant
                total == orig.len(),
                0 <= k <= total,
                k == total - drained@.len(),
                drained@ == orig.skip(k),
                self.corrections@ == retained_corrections(orig.take(k), now as int),
                count as int == k - self.corrections@.len(),
                self.tests == old(self).tests,
                self.submissions == old(self).submissions,
                self.next_test_id == old(self).next_test_id,
                self.next_submission_id == old(self).next_submission_id,
                self.next_correction_id == old(self).next_correction_id,
            decreases drained@.len(),
        {
            let c = drained.remove(0);
            proof {
                assert(orig.skip(k)[0] == orig[k]);
                assert(orig.skip(k).remove(0) =~= orig.skip(k + 1));
                assert(orig.take(k + 1).drop_last() =~= orig.take(k));
                assert(orig.take(k + 1).last() == orig[k]);
                k = k + 1;
            }
            if c.expires_at < now {
                count = count + 1;
            } else {
                self.corrections.push(c);
            }
        }
        proof {
            assert(orig.take(total as int) =~= orig);
        }
        count
    }
}

} // verus!

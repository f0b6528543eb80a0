//! Expiry computation and the liveness predicate.
//!
//! All instants are absolute times in milliseconds. A test created at
//! `created_at` with a nominal duration of `d` minutes expires at
//! `created_at + d + 10` minutes: the fixed ten-minute grace buffer absorbs
//! clock skew and submission lag after the nominal exam end. A record is
//! live exactly while `now` is before its expiry instant; expiry is purely
//! time-derived, with no soft-delete flag.

use vstd::prelude::*;
use crate::validate::is_valid_duration;

verus! {

/// The fixed grace buffer, in minutes, added beyond the nominal duration.
pub const GRACE_MINUTES: i64 = 10;

/// Milliseconds in one minute.
pub const MILLIS_PER_MINUTE: i64 = 60_000;

/// The largest offset the expiry computation can add to a creation instant:
/// (240 + 10) minutes, in milliseconds.
pub const MAX_EXPIRY_OFFSET_MILLIS: i64 = 15_000_000;

/// The instant at which a record created at `created_at` with the given
/// nominal duration expires.
pub open spec fn expiry_of(created_at: int, duration_minutes: int) -> int {
    created_at + (duration_minutes + GRACE_MINUTES) * MILLIS_PER_MINUTE
}

/// A record with expiry instant `expires_at` is live at `now` exactly when
/// `now` is still before `expires_at`.
pub open spec fn is_live(expires_at: int, now: int) -> bool {
    now < expires_at
}

/// The purge criterion: a row is eligible for deletion exactly when its
/// expiry instant is strictly before `now`. A row whose expiry equals `now`
/// is no longer live, but is not yet purge-eligible.
pub open spec fn purge_eligible(expires_at: int, now: int) -> bool {
    expires_at < now
}

/// Computes the expiry instant for a creation at `created_at` with a nominal
/// duration of `duration_minutes`.
pub fn compute_expires_at(created_at: i64, duration_minutes: i32) -> (r: i64)
    requires
        is_valid_duration(duration_minutes as int),
        created_at <= i64::MAX - MAX_EXPIRY_OFFSET_MILLIS,
    ensures
        r == expiry_of(created_at as int, duration_minutes as int),
{
    created_at + (duration_minutes as i64 + GRACE_MINUTES) * MILLIS_PER_MINUTE
}

/// Decides liveness of a record with expiry instant `expires_at` at `now`.
pub fn live_at(expires_at: i64, now: i64) -> (r: bool)
    ensures
        r == is_live(expires_at as int, now as int),
{
    now < expires_at
}

} // verus!

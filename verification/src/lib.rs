//! Engine for a timed, code-gated exam session: access-code and duration
//! validation, expiry computation, an activity-timeline suspicion heuristic,
//! and the lifecycle rules for creating, fetching, submitting and purging
//! test records in a session store.

pub mod lifecycle;
pub mod owner;
pub mod store;
pub mod timeline;
pub mod timing;
pub mod validate;

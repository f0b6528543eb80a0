//! Teacher-identifier parsing, delegated to the `uuid` crate.
//!
//! A creation request carries the teacher's identifier as a string; it must
//! denote a UUID. The engine keeps only the UUID's 128-bit value.

use vstd::prelude::*;

verus! {

/// The result of parsing a candidate owner identifier: `None` when the
/// string is not a UUID in any textual format `uuid::Uuid::parse_str`
/// accepts, otherwise the 128-bit value of the UUID it denotes. The result
/// depends on the characters of the string alone.
pub uninterp spec fn owner_id_of(s: Seq<char>) -> Option<u128>;

/// Relies on `uuid::Uuid::parse_str`, a deterministic, non-panicking parser
/// of the textual UUID formats, and on `uuid::Uuid::as_u128`, the big-endian
/// 128-bit value of the UUID's bytes: together a pure function of the input
/// string, named by `owner_id_of`.
#[verifier::external_body]
pub(crate) fn parse_owner_id(s: &str) -> (r: Option<u128>)
    ensures
        r == owner_id_of(s@),
{
    match uuid::Uuid::parse_str(s) {
        Ok(u) => Some(u.as_u128()),
        Err(_) => None,
    }
}

} // verus!

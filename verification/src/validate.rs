//! Access-code and duration validation.
//!
//! An access code is valid exactly when it is six characters long and every
//! character is an ASCII digit. An exam duration is valid exactly when it is
//! between 1 and 240 minutes inclusive.

use vstd::prelude::*;

verus! {

/// A single ASCII digit, `'0'` through `'9'`.
pub open spec fn is_ascii_digit(c: char) -> bool {
    '0' <= c && c <= '9'
}

/// A valid access code: exactly six characters, all ASCII digits.
pub open spec fn is_valid_code(s: Seq<char>) -> bool {
    s.len() == 6 && (forall|i: int| 0 <= i < s.len() ==> is_ascii_digit(#[trigger] s[i]))
}

/// A valid exam duration in minutes: between 1 and 240 inclusive.
pub open spec fn is_valid_duration(d: int) -> bool {
    1 <= d <= 240
}

/// Decides whether `code` is a well-formed six-digit access code.
pub fn validate_code(code: &str) -> (r: bool)
    ensures
        r == is_valid_code(code@),
{
    let n = code.unicode_len();
    if n != 6 {
        return false;
    }
    let mut i: usize = 0;
    while i < 6
        invariant
            code@.len() == 6,
            0 <= i <= 6,
            forall|j: int| 0 <= j < i ==> is_ascii_digit(#[trigger] code@[j]),
        decreases 6 - i,
    {
        let c = code.get_char(i);
        if c < '0' || c > '9' {
            return false;
        }
        i += 1;
    }
    true
}

/// Decides whether `d` is a duration the engine accepts.
pub fn validate_duration(d: i32) -> (r: bool)
    ensures
        r == is_valid_duration(d as int),
{
    1 <= d && d <= 240
}

} // verus!

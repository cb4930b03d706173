//! Input-boundary rules for usernames and passwords.
//!
//! A username is at least four characters of ASCII letters, digits and
//! dashes. A password is 4 to 50 characters, all ASCII letters or digits,
//! with at least one letter and at least one digit.

use vstd::prelude::*;

verus! {

pub open spec fn is_letter(c: char) -> bool {
    (('a' as u32) <= (c as u32) && (c as u32) <= ('z' as u32)) || (('A' as u32) <= (c as u32)
        && (c as u32) <= ('Z' as u32))
}

pub open spec fn is_digit_char(c: char) -> bool {
    ('0' as u32) <= (c as u32) && (c as u32) <= ('9' as u32)
}

pub open spec fn is_username_char(c: char) -> bool {
    is_letter(c) || is_digit_char(c) || c == '-'
}

pub open spec fn is_password_char(c: char) -> bool {
    is_letter(c) || is_digit_char(c)
}

pub open spec fn valid_username(s: Seq<char>) -> bool {
    &&& s.len() >= 4
    &&& forall|i: int| 0 <= i < s.len() ==> is_username_char(#[trigger] s[i])
}

pub open spec fn valid_password(s: Seq<char>) -> bool {
    &&& 4 <= s.len() <= 50
    &&& (forall|i: int| 0 <= i < s.len() ==> is_password_char(#[trigger] s[i]))
    &&& (exists|i: int| 0 <= i < s.len() && is_letter(#[trigger] s[i]))
    &&& (exists|i: int| 0 <= i < s.len() && is_digit_char(#[trigger] s[i]))
}

pub fn validate_username(s: &str) -> (r: bool)
    ensures
        r == valid_username(s@),
{
    let n = s.unicode_len();
    if n < 4 {
        return false;
    }
    let mut i: usize = 0;
    while i < n
        invariant
            n == s@.len(),
            0 <= i <= n,
            forall|j: int| 0 <= j < i ==> is_username_char(#[trigger] s@[j]),
        decreases n - i,
    {
        let u = s.get_char(i) as u32;
        let letter = (97 <= u && u <= 122) || (65 <= u && u <= 90);
        let digit = 48 <= u && u <= 57;
        let dash = u == 45;
        if !(letter || digit || dash) {
            return false;
        }
        i += 1;
    }
    true
}

pub fn validate_password(s: &str) -> (r: bool)
    ensures
        r == valid_password(s@),
{
    let n = s.unicode_len();
    if n < 4 || n > 50 {
        return false;
    }
    let mut has_letter = false;
    let mut has_digit = false;
    let mut i: usize = 0;
    while i < n
        invariant
            n == s@.len(),
            4 <= n <= 50,
            0 <= i <= n,
            forall|j: int| 0 <= j < i ==> is_password_char(#[trigger] s@[j]),
            has_letter == exists|j: int| 0 <= j < i && is_letter(#[trigger] s@[j]),
            has_digit == exists|j: int| 0 <= j < i && is_digit_char(#[trigger] s@[j]),
        decreases n - i,
    {
        let u = s.get_char(i) as u32;
        let letter = (97 <= u && u <= 122) || (65 <= u && u <= 90);
        let digit = 48 <= u && u <= 57;
        if !(letter || digit) {
            return false;
        }
        if letter {
            has_letter = true;
        }
        if digit {
            has_digit = true;
        }
        i += 1;
    }
    has_letter && has_digit
}

} // verus!

//! Passwords: at least ten characters, among them at least one uppercase
//! letter, one lowercase letter, one digit, and one punctuation mark, and no
//! run of four or more consecutive lowercase letters. Punctuation means the
//! ASCII punctuation set: a graphic ASCII character that is neither a letter
//! nor a digit.

use vstd::prelude::*;

use crate::chars::digit_check;
use crate::chars::is_digit;
use crate::chars::is_lower;
use crate::chars::is_punct;
use crate::chars::is_upper;
use crate::chars::lower_check;
use crate::chars::punct_check;
use crate::chars::upper_check;

verus! {

/// Some character of `s` is an uppercase letter.
pub open spec fn has_upper(s: Seq<char>) -> bool {
    exists|i: int| 0 <= i < s.len() && is_upper(#[trigger] s[i])
}

/// Some character of `s` is a lowercase letter.
pub open spec fn has_lower(s: Seq<char>) -> bool {
    exists|i: int| 0 <= i < s.len() && is_lower(#[trigger] s[i])
}

/// Some character of `s` is a digit.
pub open spec fn has_digit(s: Seq<char>) -> bool {
    exists|i: int| 0 <= i < s.len() && is_digit(#[trigger] s[i])
}

/// Some character of `s` is a punctuation mark.
pub open spec fn has_punct(s: Seq<char>) -> bool {
    exists|i: int| 0 <= i < s.len() && is_punct(#[trigger] s[i])
}

/// The four characters of `s` starting at `i` are all lowercase letters.
pub open spec fn lower_quad_at(s: Seq<char>, i: int) -> bool {
    &&& 0 <= i
    &&& i + 3 < s.len()
    &&& is_lower(s[i])
    &&& is_lower(s[i + 1])
    &&& is_lower(s[i + 2])
    &&& is_lower(s[i + 3])
}

/// `s` holds a run of four or more consecutive lowercase letters.
pub open spec fn has_lower_quad(s: Seq<char>) -> bool {
    exists|i: int| #[trigger] lower_quad_at(s, i)
}

/// A valid password: all five composition rules hold at once.
pub open spec fn password_valid(s: Seq<char>) -> bool {
    &&& s.len() >= 10
    &&& has_upper(s)
    &&& has_lower(s)
    &&& has_digit(s)
    &&& has_punct(s)
    &&& !has_lower_quad(s)
}

/// Reports whether `password` meets all five composition rules.
pub fn validate_password(password: &str) -> (r: bool)
    ensures
        r == password_valid(password@),
{
    let n = password.unicode_len();
    if n < 10 {
        return false;
    }
    let mut upper = false;
    let mut lower = false;
    let mut digit = false;
    let mut punct = false;
    let mut run: usize = 0;
    let mut i: usize = 0;
    while i < n
        invariant
            0 <= i <= n,
            n == password@.len(),
            upper == exists|k: int| 0 <= k < i && is_upper(#[trigger] password@[k]),
            lower == exists|k: int| 0 <= k < i && is_lower(#[trigger] password@[k]),
            digit == exists|k: int| 0 <= k < i && is_digit(#[trigger] password@[k]),
            punct == exists|k: int| 0 <= k < i && is_punct(#[trigger] password@[k]),
            run <= i,
            forall|k: int| i - run <= k < i ==> is_lower(#[trigger] password@[k]),
            run == i || !is_lower(password@[i - run - 1]),
            run < 4,
            forall|k: int| 0 <= k && k + 3 < i ==> !(#[trigger] lower_quad_at(password@, k)),
        decreases n - i,
    {
        let c = password.get_char(i);
        if upper_check(c) {
            upper = true;
        }
        if digit_check(c) {
            digit = true;
        }
        if punct_check(c) {
            punct = true;
        }
        if lower_check(c) {
            lower = true;
            run += 1;
            if run >= 4 {
                assert(lower_quad_at(password@, i - 3));
                return false;
            }
        } else {
            run = 0;
        }
        i += 1;
    }
    upper && lower && digit && punct
}

} // verus!

//! US currency amounts: a dollar sign, then digits either plain or grouped
//! in threes by commas, optionally closed by a decimal point and exactly two
//! digits.

use vstd::prelude::*;

use crate::chars::digit_check;
use crate::chars::is_digit;
use crate::scan::check_digits;
use crate::scan::digit_run;
use crate::scan::digits_at;
use crate::scan::scan_digits;

verus! {

/// From position `i` to the end, `t` is a sequence of groups, each a comma
/// followed by exactly three digits.
pub open spec fn comma_groups(t: Seq<char>, i: int) -> bool
    decreases t.len() - i,
{
    if i >= t.len() {
        true
    } else if t[i] == ',' {
        i + 4 <= t.len() && digits_at(t, i + 1, 3) && comma_groups(t, i + 4)
    } else {
        false
    }
}

/// Digits grouped by commas: one to three leading digits, then comma groups
/// of exactly three digits to the end.
pub open spec fn grouped_digits(t: Seq<char>) -> bool {
    let d = digit_run(t, 0);
    1 <= d <= 3 && comma_groups(t, d)
}

/// One or more digits and nothing else.
pub open spec fn plain_digits(t: Seq<char>) -> bool {
    t.len() >= 1 && digits_at(t, 0, t.len() as int)
}

/// The integer part of an amount: plain or comma-grouped digits.
pub open spec fn amount_body(t: Seq<char>) -> bool {
    plain_digits(t) || grouped_digits(t)
}

/// An amount after the dollar sign: an integer part, optionally closed by a
/// decimal point and exactly two digits.
pub open spec fn amount_ok(t: Seq<char>) -> bool {
    if t.len() >= 3 && t[t.len() - 3] == '.' && is_digit(t[t.len() - 2]) && is_digit(
        t[t.len() - 1],
    ) {
        amount_body(t.subrange(0, t.len() - 3))
    } else {
        amount_body(t)
    }
}

/// A valid currency amount: a dollar sign followed by an amount.
pub open spec fn currency_valid(s: Seq<char>) -> bool {
    s.len() >= 1 && s[0] == '$' && amount_ok(s.subrange(1, s.len() as int))
}

fn comma_groups_check(t: &str, from: usize) -> (r: bool)
    requires
        from <= t@.len(),
    ensures
        r == comma_groups(t@, from as int),
{
    let n = t.unicode_len();
    let mut i = from;
    while i < n
        invariant
            from <= i <= n,
            n == t@.len(),
            comma_groups(t@, from as int) == comma_groups(t@, i as int),
        decreases n - i,
    {
        if t.get_char(i) != ',' {
            return false;
        }
        if n - i < 4 {
            return false;
        }
        if !(digit_check(t.get_char(i + 1)) && digit_check(t.get_char(i + 2)) && digit_check(
            t.get_char(i + 3),
        )) {
            return false;
        }
        assert(digits_at(t@, i as int + 1, 3));
        i += 4;
    }
    true
}

fn amount_body_check(t: &str) -> (r: bool)
    ensures
        r == amount_body(t@),
{
    let n = t.unicode_len();
    if n >= 1 && check_digits(t, 0, n) {
        return true;
    }
    let d = scan_digits(t, 0);
    if d < 1 || d > 3 {
        return false;
    }
    comma_groups_check(t, d)
}

fn amount_check(t: &str) -> (r: bool)
    ensures
        r == amount_ok(t@),
{
    let n = t.unicode_len();
    if n >= 3 && t.get_char(n - 3) == '.' && digit_check(t.get_char(n - 2)) && digit_check(
        t.get_char(n - 1),
    ) {
        let u = t.substring_char(0, n - 3);
        amount_body_check(u)
    } else {
        amount_body_check(t)
    }
}

/// Reports whether `amount` is a valid currency amount.
pub fn validate_currency(amount: &str) -> (r: bool)
    ensures
        r == currency_valid(amount@),
{
    let n = amount.unicode_len();
    if n == 0 || amount.get_char(0) != '$' {
        return false;
    }
    let t = amount.substring_char(1, n);
    amount_check(t)
}

} // verus!

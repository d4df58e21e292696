//! Military (24-hour) time: exactly four digits, no separator, hour below
//! 24 and minute below 60.

use vstd::prelude::*;

use crate::chars::digit_check;
use crate::chars::digit_read;
use crate::chars::digit_value;
use crate::chars::is_digit;

verus! {

/// The hour named by the first two characters, assuming they are digits.
pub open spec fn hour_value(s: Seq<char>) -> int
    recommends
        s.len() >= 2,
{
    digit_value(s[0]) * 10 + digit_value(s[1])
}

/// The minute named by the third and fourth characters, assuming they are
/// digits.
pub open spec fn minute_value(s: Seq<char>) -> int
    recommends
        s.len() >= 4,
{
    digit_value(s[2]) * 10 + digit_value(s[3])
}

/// A well-formed military time: four digit characters whose hour is in
/// [0, 23] and whose minute is in [0, 59].
pub open spec fn military_time_valid(s: Seq<char>) -> bool {
    &&& s.len() == 4
    &&& forall|i: int| 0 <= i < 4 ==> is_digit(#[trigger] s[i])
    &&& hour_value(s) < 24
    &&& minute_value(s) < 60
}

/// Reports whether `time` is a well-formed military time.
pub fn validate_military_time(time: &str) -> (r: bool)
    ensures
        r == military_time_valid(time@),
{
    let n = time.unicode_len();
    if n != 4 {
        return false;
    }
    let c0 = time.get_char(0);
    let c1 = time.get_char(1);
    let c2 = time.get_char(2);
    let c3 = time.get_char(3);
    if !(digit_check(c0) && digit_check(c1) && digit_check(c2) && digit_check(c3)) {
        return false;
    }
    let hour = digit_read(c0) * 10 + digit_read(c1);
    let minute = digit_read(c2) * 10 + digit_read(c3);
    hour < 24 && minute < 60
}

} // verus!

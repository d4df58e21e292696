//! Dates written as MM-DD-YYYY or MM/DD/YYYY: two-digit month and day and a
//! four-digit year, with either separator accepted at each position. The day
//! must fall within the month, with February resolved by the leap-year rule.

use vstd::prelude::*;

use crate::chars::digit_check;
use crate::scan::digits_at;
use crate::scan::four_digit_value;
use crate::scan::read_four_digits;
use crate::scan::read_two_digits;
use crate::scan::two_digit_value;

verus! {

/// The leap-year rule: divisible by four, and not by one hundred unless also
/// by four hundred.
pub open spec fn leap_year(y: int) -> bool {
    y % 4 == 0 && (y % 100 != 0 || y % 400 == 0)
}

/// The number of days in month `m` of year `y`.
pub open spec fn month_days(m: int, y: int) -> int
    recommends
        1 <= m <= 12,
{
    if m == 2 {
        if leap_year(y) {
            29
        } else {
            28
        }
    } else if m == 4 || m == 6 || m == 9 || m == 11 {
        30
    } else {
        31
    }
}

/// A date separator: a dash or a slash.
pub open spec fn is_date_sep(c: char) -> bool {
    c == '-' || c == '/'
}

/// The shape of a date: ten characters, digits in the month, day, and year
/// positions, and a separator after the month and after the day.
pub open spec fn date_syntax(s: Seq<char>) -> bool {
    &&& s.len() == 10
    &&& digits_at(s, 0, 2)
    &&& digits_at(s, 3, 2)
    &&& digits_at(s, 6, 4)
    &&& is_date_sep(s[2])
    &&& is_date_sep(s[5])
}

/// The month named by a shape-valid date string.
pub open spec fn date_month(s: Seq<char>) -> int {
    two_digit_value(s, 0)
}

/// The day named by a shape-valid date string.
pub open spec fn date_day(s: Seq<char>) -> int {
    two_digit_value(s, 3)
}

/// The year named by a shape-valid date string.
pub open spec fn date_year(s: Seq<char>) -> int {
    four_digit_value(s, 6)
}

/// A valid date: shape-valid, month in [1, 12], and day in [1, length of the
/// month in that year].
pub open spec fn date_valid(s: Seq<char>) -> bool {
    &&& date_syntax(s)
    &&& 1 <= date_month(s) <= 12
    &&& 1 <= date_day(s) <= month_days(date_month(s), date_year(s))
}

/// Reports whether `year` is a leap year.
pub fn is_leap_year(year: u16) -> (r: bool)
    ensures
        r == leap_year(year as int),
{
    (year % 4 == 0) && (year % 100 != 0 || year % 400 == 0)
}

/// The number of days in month `month` of year `year`.
pub fn month_length(month: u32, year: u16) -> (d: u32)
    requires
        1 <= month <= 12,
    ensures
        d == month_days(month as int, year as int),
{
    if month == 2 {
        if is_leap_year(year) {
            29
        } else {
            28
        }
    } else if month == 4 || month == 6 || month == 9 || month == 11 {
        30
    } else {
        31
    }
}

/// Reports whether `date` is a valid date in MM-DD-YYYY or MM/DD/YYYY form.
pub fn validate_date(date: &str) -> (r: bool)
    ensures
        r == date_valid(date@),
{
    let n = date.unicode_len();
    if n != 10 {
        return false;
    }
    let sep1 = date.get_char(2);
    let sep2 = date.get_char(5);
    if !(sep1 == '-' || sep1 == '/') || !(sep2 == '-' || sep2 == '/') {
        return false;
    }
    if !(digit_check(date.get_char(0)) && digit_check(date.get_char(1))) {
        return false;
    }
    if !(digit_check(date.get_char(3)) && digit_check(date.get_char(4))) {
        return false;
    }
    if !(digit_check(date.get_char(6)) && digit_check(date.get_char(7)) && digit_check(
        date.get_char(8),
    ) && digit_check(date.get_char(9))) {
        return false;
    }
    let month = read_two_digits(date, 0);
    if month < 1 || month > 12 {
        return false;
    }
    let day = read_two_digits(date, 3);
    let year = read_four_digits(date, 6);
    day >= 1 && day <= month_length(month, year as u16)
}

/// A date whose day exceeds the length of its month in its year is never
/// valid, whatever its shape.
pub proof fn lemma_day_over_month_length_invalid(s: Seq<char>)
    requires
        date_day(s) > month_days(date_month(s), date_year(s)),
    ensures
        !date_valid(s),
{
}

} // verus!

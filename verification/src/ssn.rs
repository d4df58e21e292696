//! US Social Security Numbers: three-digit area, two-digit group, and
//! four-digit serial, with an optional dash or space after the area and after
//! the group. No field may be zero; area numbers 666 and 900 through 999 are
//! excluded.

use vstd::prelude::*;

use crate::chars::digit_check;
use crate::scan::digits_at;
use crate::scan::four_digit_value;
use crate::scan::read_four_digits;
use crate::scan::read_three_digits;
use crate::scan::read_two_digits;
use crate::scan::three_digit_value;
use crate::scan::two_digit_value;

verus! {

/// A field separator inside an SSN: a dash or a space.
pub open spec fn is_ssn_sep(c: char) -> bool {
    c == '-' || c == ' '
}

/// Where the group field starts: right after the area, or one further if a
/// separator follows the area.
pub open spec fn ssn_group_start(s: Seq<char>) -> int {
    if 3 < s.len() && is_ssn_sep(s[3]) {
        4
    } else {
        3
    }
}

/// Where the serial field starts: right after the group, or one further if a
/// separator follows the group.
pub open spec fn ssn_serial_start(s: Seq<char>) -> int {
    let g = ssn_group_start(s);
    if g + 2 < s.len() && is_ssn_sep(s[g + 2]) {
        g + 3
    } else {
        g + 2
    }
}

/// The shape of an SSN: three digits, an optional separator, two digits, an
/// optional separator, and four digits reaching the end of the string.
pub open spec fn ssn_syntax(s: Seq<char>) -> bool {
    &&& digits_at(s, 0, 3)
    &&& digits_at(s, ssn_group_start(s), 2)
    &&& digits_at(s, ssn_serial_start(s), 4)
    &&& s.len() == ssn_serial_start(s) + 4
}

/// The area number of a shape-valid SSN.
pub open spec fn ssn_area(s: Seq<char>) -> int {
    three_digit_value(s, 0)
}

/// The group number of a shape-valid SSN.
pub open spec fn ssn_group(s: Seq<char>) -> int {
    two_digit_value(s, ssn_group_start(s))
}

/// The serial number of a shape-valid SSN.
pub open spec fn ssn_serial(s: Seq<char>) -> int {
    four_digit_value(s, ssn_serial_start(s))
}

/// A valid SSN: shape-valid, no zero field, and an area number that is
/// neither 666 nor 900 or above.
pub open spec fn ssn_valid(s: Seq<char>) -> bool {
    &&& ssn_syntax(s)
    &&& ssn_area(s) != 0
    &&& ssn_group(s) != 0
    &&& ssn_serial(s) != 0
    &&& ssn_area(s) != 666
    &&& ssn_area(s) < 900
}

/// Reports whether `ssn` is a valid US Social Security Number.
pub fn validate_ssn(ssn: &str) -> (r: bool)
    ensures
        r == ssn_valid(ssn@),
{
    let n = ssn.unicode_len();
    if n < 3 {
        return false;
    }
    if !(digit_check(ssn.get_char(0)) && digit_check(ssn.get_char(1)) && digit_check(
        ssn.get_char(2),
    )) {
        return false;
    }
    let gs: usize = if 3 < n && is_ssn_sep_check(ssn.get_char(3)) {
        4
    } else {
        3
    };
    if gs + 2 > n {
        return false;
    }
    if !(digit_check(ssn.get_char(gs)) && digit_check(ssn.get_char(gs + 1))) {
        return false;
    }
    let ss: usize = if gs + 2 < n && is_ssn_sep_check(ssn.get_char(gs + 2)) {
        gs + 3
    } else {
        gs + 2
    };
    if ss + 4 != n {
        return false;
    }
    if !(digit_check(ssn.get_char(ss)) && digit_check(ssn.get_char(ss + 1)) && digit_check(
        ssn.get_char(ss + 2),
    ) && digit_check(ssn.get_char(ss + 3))) {
        return false;
    }
    let area = read_three_digits(ssn, 0);
    let group = read_two_digits(ssn, gs);
    let serial = read_four_digits(ssn, ss);
    area != 0 && group != 0 && serial != 0 && area != 666 && area < 900
}

fn is_ssn_sep_check(c: char) -> (r: bool)
    ensures
        r == is_ssn_sep(c),
{
    c == '-' || c == ' '
}

/// An SSN with a zero area, group, or serial field, or with area number 666
/// or 900 and above, is never valid, whatever its shape.
pub proof fn lemma_ssn_excluded(s: Seq<char>)
    requires
        ssn_area(s) == 0 || ssn_group(s) == 0 || ssn_serial(s) == 0 || ssn_area(s) == 666
            || ssn_area(s) >= 900,
    ensures
        !ssn_valid(s),
{
}

/// A shape-valid SSN with no zero field and an area number other than 666
/// and below 900 is valid.
pub proof fn lemma_ssn_accepted(s: Seq<char>)
    requires
        ssn_syntax(s),
        ssn_area(s) != 0,
        ssn_group(s) != 0,
        ssn_serial(s) != 0,
        ssn_area(s) != 666,
        ssn_area(s) < 900,
    ensures
        ssn_valid(s),
{
}

} // verus!

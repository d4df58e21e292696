//! US phone numbers: an optional parenthesized three-digit area code, a
//! three-digit prefix, and a four-digit suffix, with an optional dash or
//! whitespace between the groups and optional surrounding whitespace. The
//! digits are assembled behind the +1 country code and handed to the
//! phone-number canonicalization library; the number is the value it
//! returns, or nothing where it rejects.

use vstd::prelude::*;

use phonenumber::PhoneNumber;

use crate::chars::is_space;
use crate::scan::check_digits;
use crate::scan::digits_at;
use crate::scan::scan_spaces;
use crate::scan::space_run;

verus! {

#[verifier::external_type_specification]
#[verifier::external_body]
pub struct ExPhoneNumber(PhoneNumber);

/// Whether the phone-number canonicalization library accepts this number
/// string for the US region; the answer is a function of the string alone.
pub uninterp spec fn us_parse_accepts(number: Seq<char>) -> bool;

/// Relies on phonenumber::parse with the US region: a pure parse of the
/// number string against compiled metadata, returning a canonical number or
/// an error.
#[verifier::external_body]
fn parse_us(area: &str, prefix: &str, suffix: &str) -> (r: Option<PhoneNumber>)
    ensures
        r.is_some() == us_parse_accepts(seq!['+', '1'] + area@ + prefix@ + suffix@),
{
    let number = format!("+1{}{}{}", area, prefix, suffix);
    phonenumber::parse(Some(phonenumber::country::Id::US), &number).ok()
}

/// A group separator inside a phone number: a dash or a whitespace
/// character.
pub open spec fn is_phone_sep(c: char) -> bool {
    c == '-' || is_space(c)
}

/// Where the area code starts: after the leading whitespace, and one further
/// if an opening parenthesis follows it.
pub open spec fn phone_area_start(s: Seq<char>) -> int {
    let i = space_run(s, 0);
    if i < s.len() && s[i] == '(' {
        i + 1
    } else {
        i
    }
}

/// Where the prefix starts: after the area code, skipping an optional
/// closing parenthesis and then an optional separator.
pub open spec fn phone_prefix_start(s: Seq<char>) -> int {
    let a = phone_area_start(s) + 3;
    let b = if a < s.len() && s[a] == ')' {
        a + 1
    } else {
        a
    };
    if b < s.len() && is_phone_sep(s[b]) {
        b + 1
    } else {
        b
    }
}

/// Where the suffix starts: after the prefix, skipping an optional
/// separator.
pub open spec fn phone_suffix_start(s: Seq<char>) -> int {
    let p = phone_prefix_start(s) + 3;
    if p < s.len() && is_phone_sep(s[p]) {
        p + 1
    } else {
        p
    }
}

/// The shape of a phone number: the three digit groups in their places, and
/// nothing but whitespace after the suffix.
pub open spec fn phone_syntax(s: Seq<char>) -> bool {
    &&& digits_at(s, phone_area_start(s), 3)
    &&& digits_at(s, phone_prefix_start(s), 3)
    &&& digits_at(s, phone_suffix_start(s), 4)
    &&& space_run(s, phone_suffix_start(s) + 4) == s.len()
}

/// The ten digits of a shape-valid phone number, in order.
pub open spec fn phone_digits(s: Seq<char>) -> Seq<char> {
    let a = phone_area_start(s);
    let p = phone_prefix_start(s);
    let f = phone_suffix_start(s);
    s.subrange(a, a + 3) + s.subrange(p, p + 3) + s.subrange(f, f + 4)
}

/// The digit string handed to the canonicalization library: the ten digits
/// behind the +1 country code.
pub open spec fn phone_number_string(s: Seq<char>) -> Seq<char> {
    seq!['+', '1'] + phone_digits(s)
}

/// Parses and validates `phone` as a US phone number. Returns the canonical
/// number exactly when the input is shape-valid and the canonicalization
/// library accepts its digit string.
#[verifier::rlimit(30)]
pub fn validate_phone_number(phone: &str) -> (r: Option<PhoneNumber>)
    ensures
        r.is_some() <==> phone_syntax(phone@) && us_parse_accepts(phone_number_string(phone@)),
{
    let n = phone.unicode_len();
    let w = scan_spaces(phone, 0);
    let a: usize = if w < n && phone.get_char(w) == '(' {
        w + 1
    } else {
        w
    };
    assert(a == phone_area_start(phone@));
    if !check_digits(phone, a, 3) {
        return None;
    }
    let after_area = a + 3;
    let b: usize = if after_area < n && phone.get_char(after_area) == ')' {
        after_area + 1
    } else {
        after_area
    };
    let p: usize = if b < n && phone_sep_check(phone.get_char(b)) {
        b + 1
    } else {
        b
    };
    assert(p == phone_prefix_start(phone@));
    if !check_digits(phone, p, 3) {
        return None;
    }
    let after_prefix = p + 3;
    let f: usize = if after_prefix < n && phone_sep_check(phone.get_char(after_prefix)) {
        after_prefix + 1
    } else {
        after_prefix
    };
    assert(f == phone_suffix_start(phone@));
    if !check_digits(phone, f, 4) {
        return None;
    }
    if scan_spaces(phone, f + 4) != n {
        return None;
    }
    let area = phone.substring_char(a, a + 3);
    let prefix = phone.substring_char(p, p + 3);
    let suffix = phone.substring_char(f, f + 4);
    proof {
        assert(phone_digits(phone@) == area@ + prefix@ + suffix@);
        assert(phone_number_string(phone@) =~= seq!['+', '1'] + area@ + prefix@ + suffix@);
    }
    parse_us(area, prefix, suffix)
}

fn phone_sep_check(c: char) -> (r: bool)
    ensures
        r == is_phone_sep(c),
{
    c == '-' || crate::chars::space_check(c)
}

} // verus!

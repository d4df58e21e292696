//! Character classes shared by the field grammars.
//!
//! Every class is stated once as a spec predicate over `char` and once as an
//! executable test proved equal to it. All classes are ASCII: a character
//! outside ASCII belongs to none of them.

use vstd::prelude::*;

verus! {

/// An ASCII decimal digit.
pub open spec fn is_digit(c: char) -> bool {
    '0' <= c && c <= '9'
}

/// An ASCII uppercase letter.
pub open spec fn is_upper(c: char) -> bool {
    'A' <= c && c <= 'Z'
}

/// An ASCII lowercase letter.
pub open spec fn is_lower(c: char) -> bool {
    'a' <= c && c <= 'z'
}

/// An ASCII letter of either case.
pub open spec fn is_alpha(c: char) -> bool {
    is_upper(c) || is_lower(c)
}

/// An ASCII letter or digit.
pub open spec fn is_alnum(c: char) -> bool {
    is_alpha(c) || is_digit(c)
}

/// A word character: an ASCII letter, digit, or underscore.
pub open spec fn is_word(c: char) -> bool {
    is_alnum(c) || c == '_'
}

/// An ASCII whitespace character: space, tab, line feed, vertical tab,
/// form feed, or carriage return.
pub open spec fn is_space(c: char) -> bool {
    c == ' ' || c == '\t' || c == '\n' || c == '\x0b' || c == '\x0c' || c == '\r'
}

/// An ASCII punctuation mark: a graphic ASCII character that is neither a
/// letter nor a digit.
pub open spec fn is_punct(c: char) -> bool {
    '!' <= c && c <= '~' && !is_alnum(c)
}

/// `c` matches the pattern character `p` ignoring ASCII case; `p` is expected
/// in lowercase, as grammar literals are written.
pub open spec fn eq_ignore_case(c: char, p: char) -> bool {
    c == p || (is_lower(p) && is_upper(c) && c as u32 + 32 == p as u32)
}

/// The numeric value of a digit character.
pub open spec fn digit_value(c: char) -> int
    recommends
        is_digit(c),
{
    c as u32 - '0' as u32
}

pub fn digit_check(c: char) -> (r: bool)
    ensures
        r == is_digit(c),
{
    '0' <= c && c <= '9'
}

pub fn upper_check(c: char) -> (r: bool)
    ensures
        r == is_upper(c),
{
    'A' <= c && c <= 'Z'
}

pub fn lower_check(c: char) -> (r: bool)
    ensures
        r == is_lower(c),
{
    'a' <= c && c <= 'z'
}

pub fn alpha_check(c: char) -> (r: bool)
    ensures
        r == is_alpha(c),
{
    ('A' <= c && c <= 'Z') || ('a' <= c && c <= 'z')
}

pub fn alnum_check(c: char) -> (r: bool)
    ensures
        r == is_alnum(c),
{
    alpha_check(c) || digit_check(c)
}

pub fn word_check(c: char) -> (r: bool)
    ensures
        r == is_word(c),
{
    alnum_check(c) || c == '_'
}

pub fn space_check(c: char) -> (r: bool)
    ensures
        r == is_space(c),
{
    c == ' ' || c == '\t' || c == '\n' || c == '\x0b' || c == '\x0c' || c == '\r'
}

pub fn punct_check(c: char) -> (r: bool)
    ensures
        r == is_punct(c),
{
    '!' <= c && c <= '~' && !alnum_check(c)
}

pub fn eq_ignore_case_check(c: char, p: char) -> (r: bool)
    ensures
        r == eq_ignore_case(c, p),
{
    c == p || (lower_check(p) && upper_check(c) && c as u32 + 32 == p as u32)
}

pub fn digit_read(c: char) -> (v: u32)
    requires
        is_digit(c),
    ensures
        v == digit_value(c),
        v <= 9,
{
    c as u32 - '0' as u32
}

} // verus!

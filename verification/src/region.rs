//! City, state, and ZIP code lines: a city name of letters and whitespace,
//! a comma, whitespace, a two-letter state abbreviation from the fixed set
//! of the fifty states and the District of Columbia, whitespace, and a ZIP
//! code of five digits, optionally followed by a dash and four more.

use vstd::prelude::*;

use crate::chars::alpha_check;
use crate::chars::is_alpha;
use crate::chars::is_space;
use crate::chars::space_check;
use crate::scan::check_digits;
use crate::scan::digits_at;
use crate::scan::find_char;
use crate::scan::scan_spaces;
use crate::scan::scan_to_char;
use crate::scan::space_run;

verus! {

/// A city-name character: a letter or whitespace.
pub open spec fn is_city_char(c: char) -> bool {
    is_alpha(c) || is_space(c)
}

/// The two characters form one of the recognized state abbreviations.
pub open spec fn state_abbrev(c1: char, c2: char) -> bool {
    ||| (c1 == 'A' && c2 == 'L')
    ||| (c1 == 'A' && c2 == 'K')
    ||| (c1 == 'A' && c2 == 'Z')
    ||| (c1 == 'A' && c2 == 'R')
    ||| (c1 == 'C' && c2 == 'A')
    ||| (c1 == 'C' && c2 == 'O')
    ||| (c1 == 'C' && c2 == 'T')
    ||| (c1 == 'D' && c2 == 'E')
    ||| (c1 == 'F' && c2 == 'L')
    ||| (c1 == 'G' && c2 == 'A')
    ||| (c1 == 'H' && c2 == 'I')
    ||| (c1 == 'I' && c2 == 'D')
    ||| (c1 == 'I' && c2 == 'L')
    ||| (c1 == 'I' && c2 == 'N')
    ||| (c1 == 'I' && c2 == 'A')
    ||| (c1 == 'K' && c2 == 'S')
    ||| (c1 == 'K' && c2 == 'Y')
    ||| (c1 == 'L' && c2 == 'A')
    ||| (c1 == 'M' && c2 == 'E')
    ||| (c1 == 'M' && c2 == 'D')
    ||| (c1 == 'M' && c2 == 'A')
    ||| (c1 == 'M' && c2 == 'I')
    ||| (c1 == 'M' && c2 == 'N')
    ||| (c1 == 'M' && c2 == 'S')
    ||| (c1 == 'M' && c2 == 'O')
    ||| (c1 == 'M' && c2 == 'T')
    ||| (c1 == 'N' && c2 == 'E')
    ||| (c1 == 'N' && c2 == 'V')
    ||| (c1 == 'N' && c2 == 'H')
    ||| (c1 == 'N' && c2 == 'J')
    ||| (c1 == 'N' && c2 == 'M')
    ||| (c1 == 'N' && c2 == 'Y')
    ||| (c1 == 'N' && c2 == 'C')
    ||| (c1 == 'N' && c2 == 'D')
    ||| (c1 == 'O' && c2 == 'H')
    ||| (c1 == 'O' && c2 == 'K')
    ||| (c1 == 'O' && c2 == 'R')
    ||| (c1 == 'P' && c2 == 'A')
    ||| (c1 == 'R' && c2 == 'I')
    ||| (c1 == 'S' && c2 == 'C')
    ||| (c1 == 'S' && c2 == 'D')
    ||| (c1 == 'T' && c2 == 'N')
    ||| (c1 == 'T' && c2 == 'X')
    ||| (c1 == 'U' && c2 == 'T')
    ||| (c1 == 'V' && c2 == 'T')
    ||| (c1 == 'V' && c2 == 'A')
    ||| (c1 == 'W' && c2 == 'A')
    ||| (c1 == 'W' && c2 == 'V')
    ||| (c1 == 'W' && c2 == 'I')
    ||| (c1 == 'W' && c2 == 'Y')
    ||| (c1 == 'D' && c2 == 'C')
}

/// The ZIP code fills `s` from `k` to the end: five digits, optionally
/// followed by a dash and four more digits.
pub open spec fn zip_at(s: Seq<char>, k: int) -> bool {
    ||| (s.len() - k == 5 && digits_at(s, k, 5))
    ||| (s.len() - k == 10 && digits_at(s, k, 5) && s[k + 5] == '-' && digits_at(s, k + 6, 4))
}

/// A valid city, state, and ZIP line: the city before the first comma, then
/// whitespace, the state abbreviation, whitespace, and the ZIP code closing
/// the string.
pub open spec fn city_state_zip_valid(s: Seq<char>) -> bool {
    let c = find_char(s, 0, ',');
    let j = space_run(s, c + 1);
    let k = space_run(s, j + 2);
    &&& 1 <= c < s.len()
    &&& forall|i: int| 0 <= i < c ==> is_city_char(#[trigger] s[i])
    &&& j > c + 1
    &&& j + 2 <= s.len()
    &&& state_abbrev(s[j], s[j + 1])
    &&& k > j + 2
    &&& zip_at(s, k)
}

fn state_abbrev_check(c1: char, c2: char) -> (r: bool)
    ensures
        r == state_abbrev(c1, c2),
{
    match (c1, c2) {
        ('A', 'L') => true,
        ('A', 'K') => true,
        ('A', 'Z') => true,
        ('A', 'R') => true,
        ('C', 'A') => true,
        ('C', 'O') => true,
        ('C', 'T') => true,
        ('D', 'E') => true,
        ('F', 'L') => true,
        ('G', 'A') => true,
        ('H', 'I') => true,
        ('I', 'D') => true,
        ('I', 'L') => true,
        ('I', 'N') => true,
        ('I', 'A') => true,
        ('K', 'S') => true,
        ('K', 'Y') => true,
        ('L', 'A') => true,
        ('M', 'E') => true,
        ('M', 'D') => true,
        ('M', 'A') => true,
        ('M', 'I') => true,
        ('M', 'N') => true,
        ('M', 'S') => true,
        ('M', 'O') => true,
        ('M', 'T') => true,
        ('N', 'E') => true,
        ('N', 'V') => true,
        ('N', 'H') => true,
        ('N', 'J') => true,
        ('N', 'M') => true,
        ('N', 'Y') => true,
        ('N', 'C') => true,
        ('N', 'D') => true,
        ('O', 'H') => true,
        ('O', 'K') => true,
        ('O', 'R') => true,
        ('P', 'A') => true,
        ('R', 'I') => true,
        ('S', 'C') => true,
        ('S', 'D') => true,
        ('T', 'N') => true,
        ('T', 'X') => true,
        ('U', 'T') => true,
        ('V', 'T') => true,
        ('V', 'A') => true,
        ('W', 'A') => true,
        ('W', 'V') => true,
        ('W', 'I') => true,
        ('W', 'Y') => true,
        ('D', 'C') => true,
        _ => false,
    }
}

/// Reports whether `input` is a valid city, state, and ZIP code line.
pub fn validate_city_state_zip(input: &str) -> (r: bool)
    ensures
        r == city_state_zip_valid(input@),
{
    let n = input.unicode_len();
    let c = scan_to_char(input, 0, ',');
    if c == 0 || c == n {
        return false;
    }
    let mut i: usize = 0;
    while i < c
        invariant
            0 <= i <= c,
            c < n,
            n == input@.len(),
            c == find_char(input@, 0, ','),
            forall|k: int| 0 <= k < i ==> is_city_char(#[trigger] input@[k]),
        decreases c - i,
    {
        let ch = input.get_char(i);
        if !(alpha_check(ch) || space_check(ch)) {
            return false;
        }
        i += 1;
    }
    let j = scan_spaces(input, c + 1);
    if j == c + 1 {
        return false;
    }
    if n - j < 2 {
        return false;
    }
    if !state_abbrev_check(input.get_char(j), input.get_char(j + 1)) {
        return false;
    }
    let k = scan_spaces(input, j + 2);
    if k == j + 2 {
        return false;
    }
    if n - k == 5 {
        check_digits(input, k, 5)
    } else if n - k == 10 {
        check_digits(input, k, 5) && input.get_char(k + 5) == '-' && check_digits(input, k + 6, 4)
    } else {
        false
    }
}

} // verus!

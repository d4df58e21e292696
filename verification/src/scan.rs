//! Scanning helpers shared by the field grammars: the end of a maximal run
//! of a character class, and the position of the first occurrence of a
//! character.
//!
//! Each helper is stated as a recursive spec function and computed by a loop
//! proved to return exactly the spec value.

use vstd::prelude::*;

use crate::chars::digit_check;
use crate::chars::digit_read;
use crate::chars::digit_value;
use crate::chars::alpha_check;
use crate::chars::space_check;
use crate::chars::is_alpha;
use crate::chars::is_digit;
use crate::chars::is_space;

verus! {

/// The `n` characters of `s` starting at `i` are all digits.
pub open spec fn digits_at(s: Seq<char>, i: int, n: int) -> bool {
    &&& i >= 0
    &&& i + n <= s.len()
    &&& forall|k: int| i <= k < i + n ==> is_digit(#[trigger] s[k])
}

/// The number named by the two digits of `s` starting at `i`.
pub open spec fn two_digit_value(s: Seq<char>, i: int) -> int
    recommends
        digits_at(s, i, 2),
{
    digit_value(s[i]) * 10 + digit_value(s[i + 1])
}

/// The number named by the three digits of `s` starting at `i`.
pub open spec fn three_digit_value(s: Seq<char>, i: int) -> int
    recommends
        digits_at(s, i, 3),
{
    digit_value(s[i]) * 100 + digit_value(s[i + 1]) * 10 + digit_value(s[i + 2])
}

/// The number named by the four digits of `s` starting at `i`.
pub open spec fn four_digit_value(s: Seq<char>, i: int) -> int
    recommends
        digits_at(s, i, 4),
{
    digit_value(s[i]) * 1000 + digit_value(s[i + 1]) * 100 + digit_value(s[i + 2]) * 10
        + digit_value(s[i + 3])
}

/// Reads the two-digit number at position `i`.
pub fn read_two_digits(s: &str, i: usize) -> (v: u32)
    requires
        digits_at(s@, i as int, 2),
    ensures
        v == two_digit_value(s@, i as int),
        v <= 99,
{
    let n = s.unicode_len();
    assert(i + 2 <= n);
    digit_read(s.get_char(i)) * 10 + digit_read(s.get_char(i + 1))
}

/// Reads the three-digit number at position `i`.
pub fn read_three_digits(s: &str, i: usize) -> (v: u32)
    requires
        digits_at(s@, i as int, 3),
    ensures
        v == three_digit_value(s@, i as int),
        v <= 999,
{
    let n = s.unicode_len();
    assert(i + 3 <= n);
    digit_read(s.get_char(i)) * 100 + digit_read(s.get_char(i + 1)) * 10 + digit_read(
        s.get_char(i + 2),
    )
}

/// Reads the four-digit number at position `i`.
pub fn read_four_digits(s: &str, i: usize) -> (v: u32)
    requires
        digits_at(s@, i as int, 4),
    ensures
        v == four_digit_value(s@, i as int),
        v <= 9999,
{
    let n = s.unicode_len();
    assert(i + 4 <= n);
    digit_read(s.get_char(i)) * 1000 + digit_read(s.get_char(i + 1)) * 100 + digit_read(
        s.get_char(i + 2),
    ) * 10 + digit_read(s.get_char(i + 3))
}

/// The end of the maximal run of whitespace starting at `i`: the first
/// position at or after `i` holding no whitespace character.
pub open spec fn space_run(s: Seq<char>, i: int) -> int
    decreases s.len() - i,
{
    if 0 <= i < s.len() && is_space(s[i]) {
        space_run(s, i + 1)
    } else {
        i
    }
}

/// The end of the maximal run of digits starting at `i`.
pub open spec fn digit_run(s: Seq<char>, i: int) -> int
    decreases s.len() - i,
{
    if 0 <= i < s.len() && is_digit(s[i]) {
        digit_run(s, i + 1)
    } else {
        i
    }
}

/// The end of the maximal run of letters starting at `i`.
pub open spec fn alpha_run(s: Seq<char>, i: int) -> int
    decreases s.len() - i,
{
    if 0 <= i < s.len() && is_alpha(s[i]) {
        alpha_run(s, i + 1)
    } else {
        i
    }
}

/// The position of the first occurrence of `c` at or after `i`, or the length
/// of `s` if there is none.
pub open spec fn find_char(s: Seq<char>, i: int, c: char) -> int
    decreases s.len() - i,
{
    if 0 <= i < s.len() && s[i] != c {
        find_char(s, i + 1, c)
    } else {
        i
    }
}

/// A maximal run never moves backwards, and never runs past the end of the
/// string it starts inside.
pub proof fn alpha_run_bounds(s: Seq<char>, i: int)
    ensures
        i <= alpha_run(s, i),
        i <= s.len() ==> alpha_run(s, i) <= s.len(),
    decreases s.len() - i,
{
    if 0 <= i < s.len() && is_alpha(s[i]) {
        alpha_run_bounds(s, i + 1);
    }
}

/// No position before the first occurrence of `c` holds `c`.
pub proof fn find_char_not_before(s: Seq<char>, i: int, c: char)
    ensures
        forall|k: int| i <= k < find_char(s, i, c) ==> s[k] != c,
    decreases s.len() - i,
{
    if 0 <= i < s.len() && s[i] != c {
        find_char_not_before(s, i + 1, c);
    }
}

/// Checks that the `count` characters starting at `from` are all digits.
pub fn check_digits(s: &str, from: usize, count: usize) -> (r: bool)
    requires
        from <= s@.len(),
    ensures
        r == digits_at(s@, from as int, count as int),
{
    let n = s.unicode_len();
    if count > n - from {
        return false;
    }
    let mut k: usize = 0;
    while k < count
        invariant
            0 <= k <= count,
            from + count <= n,
            n == s@.len(),
            forall|j: int| from <= j < from + k ==> is_digit(#[trigger] s@[j]),
        decreases count - k,
    {
        if !digit_check(s.get_char(from + k)) {
            return false;
        }
        k += 1;
    }
    true
}

pub fn scan_spaces(s: &str, from: usize) -> (j: usize)
    requires
        from <= s@.len(),
    ensures
        from <= j <= s@.len(),
        j == space_run(s@, from as int),
        j < s@.len() ==> !is_space(s@[j as int]),
{
    let n = s.unicode_len();
    let mut j = from;
    while j < n && space_check(s.get_char(j))
        invariant
            from <= j <= n,
            n == s@.len(),
            space_run(s@, from as int) == space_run(s@, j as int),
        decreases n - j,
    {
        j += 1;
    }
    j
}

pub fn scan_digits(s: &str, from: usize) -> (j: usize)
    requires
        from <= s@.len(),
    ensures
        from <= j <= s@.len(),
        j == digit_run(s@, from as int),
        j < s@.len() ==> !is_digit(s@[j as int]),
{
    let n = s.unicode_len();
    let mut j = from;
    while j < n && digit_check(s.get_char(j))
        invariant
            from <= j <= n,
            n == s@.len(),
            digit_run(s@, from as int) == digit_run(s@, j as int),
        decreases n - j,
    {
        j += 1;
    }
    j
}

pub fn scan_alphas(s: &str, from: usize) -> (j: usize)
    requires
        from <= s@.len(),
    ensures
        from <= j <= s@.len(),
        j == alpha_run(s@, from as int),
        j < s@.len() ==> !is_alpha(s@[j as int]),
{
    let n = s.unicode_len();
    let mut j = from;
    while j < n && alpha_check(s.get_char(j))
        invariant
            from <= j <= n,
            n == s@.len(),
            alpha_run(s@, from as int) == alpha_run(s@, j as int),
        decreases n - j,
    {
        j += 1;
    }
    j
}

pub fn scan_to_char(s: &str, from: usize, c: char) -> (j: usize)
    requires
        from <= s@.len(),
    ensures
        from <= j <= s@.len(),
        j == find_char(s@, from as int, c),
        j < s@.len() ==> s@[j as int] == c,
{
    let n = s.unicode_len();
    let mut j = from;
    while j < n && s.get_char(j) != c
        invariant
            from <= j <= n,
            n == s@.len(),
            find_char(s@, from as int, c) == find_char(s@, j as int, c),
        decreases n - j,
    {
        j += 1;
    }
    j
}

} // verus!

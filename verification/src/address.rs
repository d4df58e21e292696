//! House addresses: a house number, a street name, and a street type, each
//! separated by whitespace. The street type is one of a fixed set of tokens,
//! full or abbreviated, matched ignoring case; the street name may hold word
//! characters and whitespace.

use vstd::prelude::*;

use crate::chars::eq_ignore_case;
use crate::chars::eq_ignore_case_check;
use crate::chars::is_space;
use crate::chars::is_word;
use crate::chars::space_check;
use crate::chars::word_check;
use crate::scan::digit_run;
use crate::scan::scan_digits;

verus! {

/// A street-name character: a word character or whitespace.
pub open spec fn is_street_char(c: char) -> bool {
    is_word(c) || is_space(c)
}

/// The word `w` stands at position `i` and reaches the end of `s`, matched
/// ignoring case.
pub open spec fn token_at_end(s: Seq<char>, i: int, w: Seq<char>) -> bool {
    &&& i >= 0
    &&& i + w.len() == s.len()
    &&& forall|k: int| 0 <= k < w.len() ==> eq_ignore_case(s[i + k], #[trigger] w[k])
}

/// After the house number ending at `d`: whitespace, a nonempty street name
/// of street-name characters, whitespace, and the street type `w` closing
/// the string.
pub open spec fn street_tail(s: Seq<char>, d: int, w: Seq<char>) -> bool {
    let m = s.len() - w.len();
    &&& token_at_end(s, m, w)
    &&& m - 1 > d + 1
    &&& is_space(s[m - 1])
    &&& forall|k: int| d + 1 <= k < m - 1 ==> is_street_char(#[trigger] s[k])
}

/// A valid address: a house number of one or more digits, whitespace, and a
/// street name closed by one of the recognized street types.
pub open spec fn address_valid(s: Seq<char>) -> bool {
    let d = digit_run(s, 0);
    &&& d >= 1
    &&& d < s.len()
    &&& is_space(s[d])
    &&& {
        ||| street_tail(s, d, seq!['r', 'o', 'a', 'd'])
        ||| street_tail(s, d, seq!['r', 'd'])
        ||| street_tail(s, d, seq!['s', 't', 'r', 'e', 'e', 't'])
        ||| street_tail(s, d, seq!['s', 't'])
        ||| street_tail(s, d, seq!['a', 'v', 'e', 'n', 'u', 'e'])
        ||| street_tail(s, d, seq!['a', 'v', 'e'])
        ||| street_tail(s, d, seq!['b', 'o', 'u', 'l', 'e', 'v', 'a', 'r', 'd'])
        ||| street_tail(s, d, seq!['b', 'l', 'v', 'd'])
    }
}

/// Checks `street_tail` for one street type `w`.
fn street_tail_check(s: &str, d: usize, w: &str) -> (r: bool)
    requires
        d < s@.len(),
    ensures
        r == street_tail(s@, d as int, w@),
{
    let n = s.unicode_len();
    let wn = w.unicode_len();
    let avail = n - d;
    if avail < 3 || wn > avail - 3 {
        return false;
    }
    let m = n - wn;
    let mut k: usize = 0;
    while k < wn
        invariant
            0 <= k <= wn,
            n == s@.len(),
            wn == w@.len(),
            m == n - wn,
            d + 3 + wn <= n,
            forall|j: int| 0 <= j < k ==> eq_ignore_case(s@[m + j], #[trigger] w@[j]),
        decreases wn - k,
    {
        if !eq_ignore_case_check(s.get_char(m + k), w.get_char(k)) {
            return false;
        }
        k += 1;
    }
    if !space_check(s.get_char(m - 1)) {
        return false;
    }
    let mut i: usize = d + 1;
    while i < m - 1
        invariant
            d + 1 <= i <= m - 1,
            n == s@.len(),
            wn == w@.len(),
            m == n - wn,
            m - 1 < n,
            forall|j: int| d + 1 <= j < i ==> is_street_char(#[trigger] s@[j]),
        decreases m - i,
    {
        let c = s.get_char(i);
        if !(word_check(c) || space_check(c)) {
            return false;
        }
        i += 1;
    }
    true
}

/// Reports whether `address` is a valid house address.
pub fn validate_address(address: &str) -> (r: bool)
    ensures
        r == address_valid(address@),
{
    let n = address.unicode_len();
    let d = scan_digits(address, 0);
    if d == 0 || d == n {
        return false;
    }
    if !space_check(address.get_char(d)) {
        return false;
    }
    proof {
        reveal_strlit("road");
        reveal_strlit("rd");
        reveal_strlit("street");
        reveal_strlit("st");
        reveal_strlit("avenue");
        reveal_strlit("ave");
        reveal_strlit("boulevard");
        reveal_strlit("blvd");
        assert(("road")@ =~= seq!['r', 'o', 'a', 'd']);
        assert(("rd")@ =~= seq!['r', 'd']);
        assert(("street")@ =~= seq!['s', 't', 'r', 'e', 'e', 't']);
        assert(("st")@ =~= seq!['s', 't']);
        assert(("avenue")@ =~= seq!['a', 'v', 'e', 'n', 'u', 'e']);
        assert(("ave")@ =~= seq!['a', 'v', 'e']);
        assert(("boulevard")@ =~= seq!['b', 'o', 'u', 'l', 'e', 'v', 'a', 'r', 'd']);
        assert(("blvd")@ =~= seq!['b', 'l', 'v', 'd']);
    }
    street_tail_check(address, d, "road") || street_tail_check(address, d, "rd")
        || street_tail_check(address, d, "street") || street_tail_check(address, d, "st")
        || street_tail_check(address, d, "avenue") || street_tail_check(address, d, "ave")
        || street_tail_check(address, d, "boulevard") || street_tail_check(address, d, "blvd")
}

} // verus!

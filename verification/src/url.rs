//! URLs: an optional http or https scheme, a host of dot-separated labels
//! closed by a top-level domain of two to six letters, and an optional path
//! introduced by a single slash. Labels hold up to 63 letters, digits, and
//! interior hyphens, and begin and end with a letter or digit.

use vstd::prelude::*;

use crate::chars::alnum_check;
use crate::chars::alpha_check;
use crate::chars::eq_ignore_case;
use crate::chars::eq_ignore_case_check;
use crate::chars::is_alnum;
use crate::chars::is_alpha;
use crate::scan::find_char;
use crate::scan::scan_to_char;

verus! {

/// A character allowed in the path after its leading slash.
pub open spec fn is_path_char(c: char) -> bool {
    ||| is_alnum(c)
    ||| c == '-'
    ||| c == '('
    ||| c == ')'
    ||| c == '@'
    ||| c == ':'
    ||| c == '%'
    ||| c == '_'
    ||| c == '+'
    ||| c == '.'
    ||| c == '~'
    ||| c == '#'
    ||| c == '?'
    ||| c == '&'
    ||| c == '='
}

/// `s` opens with "http://", letters matched ignoring case.
pub open spec fn http_prefix(s: Seq<char>) -> bool {
    &&& s.len() >= 7
    &&& eq_ignore_case(s[0], 'h')
    &&& eq_ignore_case(s[1], 't')
    &&& eq_ignore_case(s[2], 't')
    &&& eq_ignore_case(s[3], 'p')
    &&& s[4] == ':'
    &&& s[5] == '/'
    &&& s[6] == '/'
}

/// `s` opens with "https://", letters matched ignoring case.
pub open spec fn https_prefix(s: Seq<char>) -> bool {
    &&& s.len() >= 8
    &&& eq_ignore_case(s[0], 'h')
    &&& eq_ignore_case(s[1], 't')
    &&& eq_ignore_case(s[2], 't')
    &&& eq_ignore_case(s[3], 'p')
    &&& eq_ignore_case(s[4], 's')
    &&& s[5] == ':'
    &&& s[6] == '/'
    &&& s[7] == '/'
}

/// Where the scheme ends: after "http://" or "https://", or at the start
/// where neither is present.
pub open spec fn scheme_end(s: Seq<char>) -> int {
    if http_prefix(s) {
        7
    } else if https_prefix(s) {
        8
    } else {
        0
    }
}

/// The position of the last dot of `u`, or -1 where there is none.
pub open spec fn last_dot(u: Seq<char>) -> int
    decreases u.len(),
{
    if u.len() == 0 {
        -1
    } else if u[u.len() - 1] == '.' {
        u.len() - 1
    } else {
        last_dot(u.drop_last())
    }
}

/// The start of the dot-free component of `u` that position `i` lies in.
pub open spec fn comp_start(u: Seq<char>, i: int) -> int
    decreases i,
{
    if i <= 0 {
        0
    } else if u[i - 1] == '.' {
        i
    } else {
        comp_start(u, i - 1)
    }
}

/// A well-formed host: labels of letters, digits, and interior hyphens,
/// each at most 63 characters, separated by single dots and closed by a
/// top-level domain of two to six letters after the last dot.
pub open spec fn host_ok(u: Seq<char>) -> bool {
    let d = last_dot(u);
    &&& u.len() >= 1
    &&& is_alnum(u[0])
    &&& forall|i: int| 0 <= i < u.len() ==> is_alnum(#[trigger] u[i]) || u[i] == '-' || u[i] == '.'
    &&& forall|i: int| #![trigger u[i]] 0 <= i < u.len() - 1 ==> !(u[i] == '.' && u[i + 1] == '.')
    &&& forall|i: int|
        #![trigger u[i]]
        0 < i < u.len() - 1 ==> (u[i] == '-' ==> u[i - 1] != '.' && u[i + 1] != '.')
    &&& d >= 1
    &&& 2 <= u.len() - 1 - d <= 6
    &&& forall|k: int| d < k < u.len() ==> is_alpha(#[trigger] u[k])
    &&& forall|i: int|
        #![trigger comp_start(u, i)]
        0 <= i < d && u[i] != '.' ==> i - comp_start(u, i) <= 62
}

/// A well-formed path: a slash followed by allowed path characters.
pub open spec fn path_ok(p: Seq<char>) -> bool {
    &&& p.len() >= 1
    &&& p[0] == '/'
    &&& forall|i: int| 1 <= i < p.len() ==> is_path_char(#[trigger] p[i])
}

/// A valid URL: after the optional scheme, a well-formed host up to the
/// first slash, and from there, if anything remains, a well-formed path.
pub open spec fn url_valid(s: Seq<char>) -> bool {
    let t = s.subrange(scheme_end(s), s.len() as int);
    let h = find_char(t, 0, '/');
    &&& host_ok(t.subrange(0, h))
    &&& (h == t.len() || path_ok(t.subrange(h, t.len() as int)))
}

/// The last dot really is a dot, and no dot follows it.
proof fn lemma_last_dot(u: Seq<char>)
    ensures
        -1 <= last_dot(u) < u.len(),
        last_dot(u) >= 0 ==> u[last_dot(u)] == '.',
        forall|k: int| last_dot(u) < k < u.len() ==> u[k] != '.',
    decreases u.len(),
{
    if u.len() > 0 && u[u.len() - 1] != '.' {
        lemma_last_dot(u.drop_last());
        assert forall|k: int| last_dot(u) < k < u.len() implies u[k] != '.' by {
            if k < u.len() - 1 {
                assert(u.drop_last()[k] == u[k]);
            }
        }
    }
}

fn http_prefix_check(s: &str) -> (r: bool)
    ensures
        r == http_prefix(s@),
{
    let n = s.unicode_len();
    n >= 7 && eq_ignore_case_check(s.get_char(0), 'h') && eq_ignore_case_check(s.get_char(1), 't')
        && eq_ignore_case_check(s.get_char(2), 't') && eq_ignore_case_check(s.get_char(3), 'p')
        && s.get_char(4) == ':' && s.get_char(5) == '/' && s.get_char(6) == '/'
}

fn https_prefix_check(s: &str) -> (r: bool)
    ensures
        r == https_prefix(s@),
{
    let n = s.unicode_len();
    n >= 8 && eq_ignore_case_check(s.get_char(0), 'h') && eq_ignore_case_check(s.get_char(1), 't')
        && eq_ignore_case_check(s.get_char(2), 't') && eq_ignore_case_check(s.get_char(3), 'p')
        && eq_ignore_case_check(s.get_char(4), 's') && s.get_char(5) == ':' && s.get_char(6) == '/'
        && s.get_char(7) == '/'
}

fn host_check(u: &str) -> (r: bool)
    ensures
        r == host_ok(u@),
{
    let n = u.unicode_len();
    if n == 0 {
        return false;
    }
    if !alnum_check(u.get_char(0)) {
        return false;
    }
    let mut e: usize = n;
    while e > 0 && u.get_char(e - 1) != '.'
        invariant
            0 <= e <= n,
            n == u@.len(),
            forall|k: int| e <= k < n ==> #[trigger] u@[k] != '.',
        decreases e,
    {
        e -= 1;
    }
    proof {
        lemma_last_dot(u@);
    }
    if e == 0 {
        assert(last_dot(u@) == -1);
        return false;
    }
    let d = e - 1;
    proof {
        assert(u@[d as int] == '.');
        assert(last_dot(u@) == d as int);
    }
    if n - 1 - d < 2 || n - 1 - d > 6 {
        return false;
    }
    let mut k = d + 1;
    while k < n
        invariant
            d + 1 <= k <= n,
            n == u@.len(),
            d as int == last_dot(u@),
            forall|j: int| d < j < k ==> is_alpha(#[trigger] u@[j]),
        decreases n - k,
    {
        if !alpha_check(u.get_char(k)) {
            return false;
        }
        k += 1;
    }
    let mut i: usize = 0;
    let mut prev: char = 'a';
    while i < n
        invariant
            0 <= i <= n,
            n == u@.len(),
            is_alnum(u@[0]),
            n >= 1,
            forall|j: int| 0 <= j < i ==> is_alnum(#[trigger] u@[j]) || u@[j] == '-' || u@[j] == '.',
            forall|j: int| #![trigger u@[j]] 0 <= j < i - 1 ==> !(u@[j] == '.' && u@[j + 1] == '.'),
            forall|j: int|
                #![trigger u@[j]]
                0 < j < i ==> (u@[j] == '-' ==> u@[j - 1] != '.') && (u@[j] == '.' ==> u@[j - 1]
                    != '-'),
            i > 0 ==> prev == u@[i - 1],
        decreases n - i,
    {
        let c = u.get_char(i);
        if !(alnum_check(c) || c == '-' || c == '.') {
            return false;
        }
        if c == '.' && i > 0 && (prev == '.' || prev == '-') {
            return false;
        }
        if c == '-' && i > 0 && prev == '.' {
            return false;
        }
        prev = c;
        i += 1;
    }
    let mut p: usize = 0;
    let mut run: usize = 0;
    while p < d
        invariant
            0 <= p <= d,
            d < n,
            n == u@.len(),
            d as int == last_dot(u@),
            run == p - comp_start(u@, p as int),
            forall|j: int|
                #![trigger comp_start(u@, j)]
                0 <= j < p && u@[j] != '.' ==> j - comp_start(u@, j) <= 62,
        decreases d - p,
    {
        if u.get_char(p) == '.' {
            run = 0;
        } else {
            if run > 62 {
                return false;
            }
            run += 1;
        }
        p += 1;
    }
    true
}

fn path_check(p: &str) -> (r: bool)
    ensures
        r == path_ok(p@),
{
    let n = p.unicode_len();
    if n == 0 || p.get_char(0) != '/' {
        return false;
    }
    let mut i: usize = 1;
    while i < n
        invariant
            1 <= i <= n,
            n == p@.len(),
            forall|k: int| 1 <= k < i ==> is_path_char(#[trigger] p@[k]),
        decreases n - i,
    {
        if !path_char_check(p.get_char(i)) {
            return false;
        }
        i += 1;
    }
    true
}

fn path_char_check(c: char) -> (r: bool)
    ensures
        r == is_path_char(c),
{
    alnum_check(c) || c == '-' || c == '(' || c == ')' || c == '@' || c == ':' || c == '%' || c
        == '_' || c == '+' || c == '.' || c == '~' || c == '#' || c == '?' || c == '&' || c == '='
}

/// Reports whether `url` is a valid URL.
pub fn validate_url(url: &str) -> (r: bool)
    ensures
        r == url_valid(url@),
{
    let n = url.unicode_len();
    let start: usize = if http_prefix_check(url) {
        7
    } else if https_prefix_check(url) {
        8
    } else {
        0
    };
    let t = url.substring_char(start, n);
    let tn = t.unicode_len();
    let h = scan_to_char(t, 0, '/');
    let host = t.substring_char(0, h);
    if !host_check(host) {
        return false;
    }
    if h == tn {
        return true;
    }
    let p = t.substring_char(h, tn);
    path_check(p)
}

} // verus!

//! Email addresses: a local part and a domain joined by a single at sign.
//! The local part is a dot-separated sequence of words over letters, digits,
//! and a fixed set of special characters; the domain is a dot-separated
//! sequence of labels over letters, digits, and interior hyphens, with at
//! least two labels. Letters of either case are accepted throughout.

use vstd::prelude::*;

use crate::chars::alnum_check;
use crate::chars::is_alnum;
use crate::scan::find_char_not_before;
use crate::scan::scan_to_char;

verus! {

/// A character allowed in a word of the local part.
pub open spec fn is_local_char(c: char) -> bool {
    ||| is_alnum(c)
    ||| c == '!'
    ||| c == '#'
    ||| c == '$'
    ||| c == '%'
    ||| c == '&'
    ||| c == '\''
    ||| c == '*'
    ||| c == '+'
    ||| c == '/'
    ||| c == '='
    ||| c == '?'
    ||| c == '^'
    ||| c == '_'
    ||| c == '`'
    ||| c == '{'
    ||| c == '|'
    ||| c == '}'
    ||| c == '~'
    ||| c == '-'
}

/// A well-formed local part: nonempty words of allowed characters separated
/// by single dots, with no dot at either end.
pub open spec fn local_part_ok(t: Seq<char>) -> bool {
    &&& t.len() >= 1
    &&& t[0] != '.'
    &&& t[t.len() - 1] != '.'
    &&& forall|i: int| 0 <= i < t.len() ==> is_local_char(#[trigger] t[i]) || t[i] == '.'
    &&& forall|i: int| #![trigger t[i]] 0 <= i < t.len() - 1 ==> !(t[i] == '.' && t[i + 1] == '.')
}

/// A well-formed domain: at least two labels separated by single dots, each
/// label made of letters, digits, and hyphens, beginning and ending with a
/// letter or digit.
pub open spec fn domain_ok(u: Seq<char>) -> bool {
    &&& u.len() >= 1
    &&& is_alnum(u[0])
    &&& is_alnum(u[u.len() - 1])
    &&& forall|i: int| 0 <= i < u.len() ==> is_alnum(#[trigger] u[i]) || u[i] == '-' || u[i] == '.'
    &&& exists|i: int| 0 <= i < u.len() && #[trigger] u[i] == '.'
    &&& forall|i: int| #![trigger u[i]] 0 <= i < u.len() - 1 ==> !(u[i] == '.' && u[i + 1] == '.')
    &&& forall|i: int|
        #![trigger u[i]]
        0 < i < u.len() - 1 ==> (u[i] == '-' ==> u[i - 1] != '.' && u[i + 1] != '.')
}

/// A valid email address: some at sign splits it into a well-formed local
/// part and a well-formed domain. Since neither part may hold an at sign,
/// the split, if any, is unique.
pub open spec fn email_valid(s: Seq<char>) -> bool {
    exists|k: int|
        0 <= k < s.len() && #[trigger] s[k] == '@' && local_part_ok(s.subrange(0, k)) && domain_ok(
            s.subrange(k + 1, s.len() as int),
        )
}

fn local_char_check(c: char) -> (r: bool)
    ensures
        r == is_local_char(c),
{
    alnum_check(c) || c == '!' || c == '#' || c == '$' || c == '%' || c == '&' || c == '\'' || c
        == '*' || c == '+' || c == '/' || c == '=' || c == '?' || c == '^' || c == '_' || c == '`'
        || c == '{' || c == '|' || c == '}' || c == '~' || c == '-'
}

fn local_part_check(t: &str) -> (r: bool)
    ensures
        r == local_part_ok(t@),
{
    let n = t.unicode_len();
    if n == 0 {
        return false;
    }
    if t.get_char(0) == '.' || t.get_char(n - 1) == '.' {
        return false;
    }
    let mut i: usize = 0;
    let mut prev_dot = false;
    while i < n
        invariant
            0 <= i <= n,
            n == t@.len(),
            forall|k: int| 0 <= k < i ==> is_local_char(#[trigger] t@[k]) || t@[k] == '.',
            forall|k: int| #![trigger t@[k]] 0 <= k < i - 1 ==> !(t@[k] == '.' && t@[k + 1] == '.'),
            prev_dot == (i > 0 && t@[i - 1] == '.'),
        decreases n - i,
    {
        let c = t.get_char(i);
        if !(local_char_check(c) || c == '.') {
            return false;
        }
        if c == '.' {
            if prev_dot {
                return false;
            }
            prev_dot = true;
        } else {
            prev_dot = false;
        }
        i += 1;
    }
    true
}

fn domain_check(u: &str) -> (r: bool)
    ensures
        r == domain_ok(u@),
{
    let n = u.unicode_len();
    if n == 0 {
        return false;
    }
    if !(alnum_check(u.get_char(0)) && alnum_check(u.get_char(n - 1))) {
        return false;
    }
    let mut i: usize = 0;
    let mut prev: char = 'a';
    let mut seen_dot = false;
    while i < n
        invariant
            0 <= i <= n,
            n == u@.len(),
            is_alnum(u@[0]),
            is_alnum(u@[n - 1]),
            forall|k: int| 0 <= k < i ==> is_alnum(#[trigger] u@[k]) || u@[k] == '-' || u@[k] == '.',
            forall|k: int| #![trigger u@[k]] 0 <= k < i - 1 ==> !(u@[k] == '.' && u@[k + 1] == '.'),
            forall|k: int|
                #![trigger u@[k]]
                0 < k < i && k < n - 1 ==> (u@[k] == '-' ==> u@[k - 1] != '.') && (u@[k] == '.'
                    ==> u@[k - 1] != '-'),
            i > 0 ==> prev == u@[i - 1],
            seen_dot == exists|k: int| 0 <= k < i && #[trigger] u@[k] == '.',
        decreases n - i,
    {
        let c = u.get_char(i);
        if !(alnum_check(c) || c == '-' || c == '.') {
            return false;
        }
        if c == '.' {
            if i > 0 && (prev == '.' || prev == '-') {
                return false;
            }
            seen_dot = true;
        }
        if c == '-' && i > 0 && prev == '.' {
            return false;
        }
        prev = c;
        i += 1;
    }
    seen_dot
}

/// Reports whether `email` is a well-formed email address.
pub fn validate_email(email: &str) -> (r: bool)
    ensures
        r == email_valid(email@),
{
    let n = email.unicode_len();
    let at = scan_to_char(email, 0, '@');
    proof {
        find_char_not_before(email@, 0, '@');
    }
    if at == n {
        return false;
    }
    let at2 = scan_to_char(email, at + 1, '@');
    proof {
        find_char_not_before(email@, at as int + 1, '@');
    }
    if at2 != n {
        proof {
            assert forall|k: int|
                0 <= k < email@.len() && #[trigger] email@[k] == '@' implies !(local_part_ok(
                email@.subrange(0, k),
            ) && domain_ok(email@.subrange(k + 1, email@.len() as int))) by {
                if k == at {
                    assert(email@.subrange(k + 1, email@.len() as int)[at2 as int - k - 1] == '@');
                } else {
                    assert(k > at);
                    assert(email@.subrange(0, k)[at as int] == '@');
                }
            }
        }
        return false;
    }
    let local = email.substring_char(0, at);
    let domain = email.substring_char(at + 1, n);
    let ok = local_part_check(local) && domain_check(domain);
    proof {
        if ok {
            assert(email@[at as int] == '@');
        } else {
            assert forall|k: int|
                0 <= k < email@.len() && #[trigger] email@[k] == '@' implies !(local_part_ok(
                email@.subrange(0, k),
            ) && domain_ok(email@.subrange(k + 1, email@.len() as int))) by {
                assert(k == at);
            }
        }
    }
    ok
}

} // verus!

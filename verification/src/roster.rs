//! Class-roster names: a last name, a comma, a first name, and then any
//! number of single-letter middle initials, each introduced by a comma.
//! Whitespace may follow each comma; every name part holds letters only.

use vstd::prelude::*;

use crate::chars::alpha_check;
use crate::chars::is_alpha;
use crate::chars::is_space;
use crate::scan::alpha_run;
use crate::scan::scan_alphas;
use crate::scan::scan_spaces;
use crate::scan::space_run;

verus! {

/// At position `i` the rest of the roster is zero or more initials, each a
/// comma, optional whitespace, and one letter, reaching the end.
pub open spec fn roster_tail(s: Seq<char>, i: int) -> bool
    decreases s.len() - i,
{
    if i >= s.len() {
        true
    } else if s[i] == ',' {
        roster_initial(s, i + 1)
    } else {
        false
    }
}

/// At position `i` the rest of the roster is optional whitespace, one
/// letter, and then further initials.
pub open spec fn roster_initial(s: Seq<char>, i: int) -> bool
    decreases s.len() - i,
{
    if i < 0 || i >= s.len() {
        false
    } else if is_space(s[i]) {
        roster_initial(s, i + 1)
    } else {
        is_alpha(s[i]) && roster_tail(s, i + 1)
    }
}

/// After the comma that closes the last name: optional whitespace, a first
/// name of one or more letters, and then the initials.
pub open spec fn roster_first_name(s: Seq<char>, i: int) -> bool {
    let j = space_run(s, i);
    let k = alpha_run(s, j);
    k > j && roster_tail(s, k)
}

/// A valid roster name: a last name of one or more letters, a comma, and
/// the first name and initials after it.
pub open spec fn roster_valid(s: Seq<char>) -> bool {
    let a = alpha_run(s, 0);
    &&& a >= 1
    &&& a < s.len()
    &&& s[a] == ','
    &&& roster_first_name(s, a + 1)
}

/// Skipping whitespace does not change what an initial position accepts.
proof fn lemma_roster_initial_spaces(s: Seq<char>, i: int)
    ensures
        roster_initial(s, i) == roster_initial(s, space_run(s, i)),
    decreases s.len() - i,
{
    if 0 <= i < s.len() && is_space(s[i]) {
        lemma_roster_initial_spaces(s, i + 1);
    }
}

/// Reports whether `name_roster` is a valid roster name.
pub fn validate_name_roster(name_roster: &str) -> (r: bool)
    ensures
        r == roster_valid(name_roster@),
{
    let n = name_roster.unicode_len();
    let a = scan_alphas(name_roster, 0);
    if a == 0 || a == n {
        return false;
    }
    if name_roster.get_char(a) != ',' {
        return false;
    }
    let j = scan_spaces(name_roster, a + 1);
    let k = scan_alphas(name_roster, j);
    if k == j {
        return false;
    }
    let mut i = k;
    while i < n
        invariant
            k <= i <= n,
            n == name_roster@.len(),
            roster_valid(name_roster@) == roster_tail(name_roster@, i as int),
        decreases n - i,
    {
        if name_roster.get_char(i) != ',' {
            return false;
        }
        let j2 = scan_spaces(name_roster, i + 1);
        proof {
            lemma_roster_initial_spaces(name_roster@, i as int + 1);
        }
        if j2 == n {
            return false;
        }
        if !alpha_check(name_roster.get_char(j2)) {
            return false;
        }
        i = j2 + 1;
    }
    true
}

} // verus!

//! The lexical "ion" word rule: scan free text for words ending in the
//! letters "ion" preceded by an odd number of letters, and return every such
//! word in order of appearance, duplicates included. A word is a maximal run
//! of ASCII letters, bounded by non-letter characters or the edges of the
//! text.

use vstd::prelude::*;

use crate::chars::alpha_check;
use crate::chars::is_alpha;
use crate::scan::alpha_run;
use crate::scan::alpha_run_bounds;
use crate::scan::scan_alphas;

verus! {

/// The word rule: the word ends in the letters "ion", and the count of its
/// characters before that ending is odd.
pub open spec fn ion_word(w: Seq<char>) -> bool {
    &&& w.len() >= 4
    &&& (w.len() - 3) % 2 == 1
    &&& w[w.len() - 3] == 'i'
    &&& w[w.len() - 2] == 'o'
    &&& w[w.len() - 1] == 'n'
}

/// The words of `s` at or after position `i` that satisfy the word rule, in
/// order of appearance.
pub open spec fn ion_words_from(s: Seq<char>, i: int) -> Seq<Seq<char>>
    decreases s.len() - i,
    via ion_words_from_decreases
{
    if i < 0 || i >= s.len() {
        Seq::empty()
    } else if !is_alpha(s[i]) {
        ion_words_from(s, i + 1)
    } else {
        let j = alpha_run(s, i);
        let w = s.subrange(i, j);
        (if ion_word(w) {
            seq![w]
        } else {
            Seq::<Seq<char>>::empty()
        }) + ion_words_from(s, j)
    }
}

#[via_fn]
proof fn ion_words_from_decreases(s: Seq<char>, i: int) {
    if 0 <= i < s.len() && is_alpha(s[i]) {
        alpha_run_bounds(s, i + 1);
    }
}

/// The words of the whole of `s` that satisfy the word rule.
pub open spec fn ion_words(s: Seq<char>) -> Seq<Seq<char>> {
    ion_words_from(s, 0)
}

/// Reports whether `w` satisfies the word rule.
fn ion_word_check(w: &str) -> (r: bool)
    ensures
        r == ion_word(w@),
{
    let n = w.unicode_len();
    n >= 4 && (n - 3) % 2 == 1 && w.get_char(n - 3) == 'i' && w.get_char(n - 2) == 'o'
        && w.get_char(n - 1) == 'n'
}

/// Extracts from `text` every word satisfying the word rule, in order of
/// appearance, duplicates included.
pub fn validate_odd_ion_words(text: &str) -> (words: Vec<String>)
    ensures
        words.deep_view() == ion_words(text@),
{
    let n = text.unicode_len();
    let mut words: Vec<String> = Vec::new();
    let mut i: usize = 0;
    while i < n
        invariant
            0 <= i <= n,
            n == text@.len(),
            words.deep_view() + ion_words_from(text@, i as int) == ion_words(text@),
        decreases n - i,
    {
        if !alpha_check(text.get_char(i)) {
            i += 1;
        } else {
            let j = scan_alphas(text, i);
            proof {
                alpha_run_bounds(text@, i as int + 1);
            }
            let w = text.substring_char(i, j);
            let ghost prev = words.deep_view();
            if ion_word_check(w) {
                words.push(w.to_owned());
                proof {
                    assert(words.deep_view() =~= prev.push(w@));
                    assert(prev.push(w@) + ion_words_from(text@, j as int) =~= prev + (seq![w@]
                        + ion_words_from(text@, j as int)));
                }
            } else {
                proof {
                    assert(Seq::<Seq<char>>::empty() + ion_words_from(text@, j as int)
                        =~= ion_words_from(text@, j as int));
                }
            }
            i = j;
        }
    }
    words
}

/// Every word the scan returns satisfies the word rule: it ends in "ion"
/// after an odd number of letters.
pub proof fn lemma_ion_words_obey_rule(s: Seq<char>)
    ensures
        forall|k: int| 0 <= k < ion_words(s).len() ==> ion_word(#[trigger] ion_words(s)[k]),
{
    lemma_ion_words_from_obey_rule(s, 0);
}

proof fn lemma_ion_words_from_obey_rule(s: Seq<char>, i: int)
    ensures
        forall|k: int|
            0 <= k < ion_words_from(s, i).len() ==> ion_word(#[trigger] ion_words_from(s, i)[k]),
    decreases s.len() - i,
{
    if i < 0 || i >= s.len() {
    } else if !is_alpha(s[i]) {
        lemma_ion_words_from_obey_rule(s, i + 1);
        assert forall|k: int|
            0 <= k < ion_words_from(s, i).len() implies ion_word(
            #[trigger] ion_words_from(s, i)[k],
        ) by {
            assert(ion_words_from(s, i)[k] == ion_words_from(s, i + 1)[k]);
        }
    } else {
        alpha_run_bounds(s, i + 1);
        let j = alpha_run(s, i);
        let w = s.subrange(i, j);
        lemma_ion_words_from_obey_rule(s, j);
        let head: Seq<Seq<char>> = if ion_word(w) {
            seq![w]
        } else {
            Seq::empty()
        };
        assert forall|k: int|
            0 <= k < ion_words_from(s, i).len() implies ion_word(
            #[trigger] ion_words_from(s, i)[k],
        ) by {
            if k < head.len() {
                assert(ion_words_from(s, i)[k] == w);
            } else {
                assert(ion_words_from(s, i)[k] == ion_words_from(s, j)[k - head.len()]);
            }
        }
    }
}

} // verus!

//! Decisions on what the user types at an interactive prompt: the filter
//! of a selection list, and a yes/no answer.

use crate::text::{contains_str, is_substring, lower_of, lowercase, trim_of, trim_str};
use vstd::prelude::*;

verus! {

/// The indices, in order, of the items that contain `q`.
pub open spec fn matching_indices(items: Seq<Seq<char>>, q: Seq<char>) -> Seq<usize>
    decreases items.len(),
{
    if items.len() == 0 {
        Seq::empty()
    } else {
        let rest = matching_indices(items.drop_last(), q);
        if is_substring(q, items.last()) {
            rest.push((items.len() - 1) as usize)
        } else {
            rest
        }
    }
}

/// The indices of the items that contain `query`, where both are already
/// in lower case.
pub fn filter_lowered(items: &Vec<String>, query: &str) -> (r: Vec<usize>)
    ensures
        r@ == matching_indices(items@.map_values(|s: String| s@), query@),
{
    let ghost all = items@.map_values(|s: String| s@);
    let mut out: Vec<usize> = Vec::new();
    let mut i: usize = 0;
    while i < items.len()
        invariant
            i <= items@.len(),
            all == items@.map_values(|s: String| s@),
            out@ == matching_indices(all.take(i as int), query@),
        decreases items@.len() - i,
    {
        let ghost prefix = all.take(i as int);
        assert(all.take(i + 1).drop_last() =~= prefix);
        assert(all.take(i + 1).last() == items@[i as int]@);
        if contains_str(items[i].as_str(), query) {
            out.push(i);
        }
        i = i + 1;
    }
    assert(all.take(i as int) =~= all);
    out
}

/// The indices of the items whose lower-case form contains the lower-case
/// form of `query`.
pub fn filter_items(items: &Vec<String>, query: &str) -> (r: Vec<usize>)
    ensures
        r@ == matching_indices(items@.map_values(|s: String| lower_of(s@)), lower_of(query@)),
{
    let q = lowercase(query);
    let mut lowered: Vec<String> = Vec::new();
    let mut i: usize = 0;
    while i < items.len()
        invariant
            i <= items@.len(),
            lowered@.len() == i,
            forall|j: int| 0 <= j < i ==> (#[trigger] lowered@[j])@ == lower_of(items@[j]@),
        decreases items@.len() - i,
    {
        lowered.push(lowercase(items[i].as_str()));
        i = i + 1;
    }
    assert(lowered@.map_values(|s: String| s@) =~= items@.map_values(|s: String| lower_of(s@)));
    filter_lowered(&lowered, q.as_str())
}

/// Whether a trimmed, lower-case answer is yes.
pub open spec fn is_yes_word(w: Seq<char>) -> bool {
    w == seq!['y'] || w == seq!['y', 'e', 's']
}

/// Whether a trimmed, lower-case answer is `y` or `yes`.
pub fn is_yes(word: &String) -> (r: bool)
    ensures
        r == is_yes_word(word@),
{
    proof {
        reveal_strlit("y");
        reveal_strlit("yes");
    }
    let y = "y".to_owned();
    let yes = "yes".to_owned();
    assert(y@ =~= seq!['y']);
    assert(yes@ =~= seq!['y', 'e', 's']);
    *word == y || *word == yes
}

/// Whether an answer typed at a yes/no prompt agrees: `y` or `yes` in any
/// case, around whitespace.
pub fn confirms(answer: &str) -> (r: bool)
    ensures
        r == is_yes_word(lower_of(trim_of(answer@))),
{
    let word = lowercase(trim_str(answer));
    is_yes(&word)
}

} // verus!

//! Lists of strings, seen as lists of character sequences, and facts about
//! leaving items out of lists.

use vstd::prelude::*;

verus! {

/// The character sequences of a list of strings, in order.
pub open spec fn texts(strings: Seq<String>) -> Seq<Seq<char>> {
    strings.map_values(|s: String| s@)
}

/// Whether `text` occurs in `list`.
pub open spec fn has_text(list: Seq<Seq<char>>, text: Seq<char>) -> bool {
    exists|i: int| 0 <= i < list.len() && list[i] == text
}

/// Leaving items out of a list in which no key occurs twice leaves such a
/// list.
pub proof fn lemma_filter_keeps_distinct_keys<A>(
    items: Seq<A>,
    key: spec_fn(A) -> Seq<char>,
    keep: spec_fn(A) -> bool,
)
    requires
        items.map_values(key).no_duplicates(),
    ensures
        items.filter(keep).map_values(key).no_duplicates(),
    decreases items.len(),
{
    reveal(Seq::filter);
    if items.len() > 0 {
        let earlier = items.drop_last();
        assert forall|i: int, j: int|
            0 <= i < earlier.len() && 0 <= j < earlier.len() && i != j implies earlier.map_values(
            key,
        )[i] != earlier.map_values(key)[j] by {
            assert(items.map_values(key)[i] != items.map_values(key)[j]);
        }
        lemma_filter_keeps_distinct_keys(earlier, key, keep);
        let kept = earlier.filter(keep);
        if keep(items.last()) {
            let all = kept.push(items.last());
            assert forall|i: int, j: int|
                0 <= i < all.len() && 0 <= j < all.len() && i != j implies all.map_values(key)[i]
                != all.map_values(key)[j] by {
                if i < kept.len() && j < kept.len() {
                    assert(kept.map_values(key)[i] != kept.map_values(key)[j]);
                } else {
                    let k = if i < kept.len() {
                        i
                    } else {
                        j
                    };
                    earlier.lemma_filter_contains_rev(keep, kept[k]);
                    let at = choose|at: int| 0 <= at < earlier.len() && earlier[at] == kept[k];
                    assert(items.map_values(key)[at] != items.map_values(key)[items.len() - 1]);
                }
            }
        }
    }
}

/// Leaving out the one item of a list that is not to be kept removes it from
/// its place and changes nothing else.
pub proof fn lemma_filter_leaves_out_one<A>(items: Seq<A>, keep: spec_fn(A) -> bool, i: int)
    requires
        0 <= i < items.len(),
        !keep(items[i]),
        forall|j: int| 0 <= j < items.len() && j != i ==> keep(#[trigger] items[j]),
    ensures
        items.filter(keep) == items.remove(i),
    decreases items.len(),
{
    reveal(Seq::filter);
    let earlier = items.drop_last();
    if i == items.len() - 1 {
        lemma_filter_keeps_all(earlier, keep);
        assert(items.remove(i) =~= earlier);
    } else {
        assert(forall|j: int| 0 <= j < earlier.len() ==> earlier[j] == items[j]);
        lemma_filter_leaves_out_one(earlier, keep, i);
        assert(items.remove(i) =~= earlier.remove(i).push(items.last()));
    }
}

/// Leaving out nothing leaves the list as it is.
pub proof fn lemma_filter_keeps_all<A>(items: Seq<A>, keep: spec_fn(A) -> bool)
    requires
        forall|j: int| 0 <= j < items.len() ==> keep(#[trigger] items[j]),
    ensures
        items.filter(keep) == items,
    decreases items.len(),
{
    reveal(Seq::filter);
    if items.len() > 0 {
        let earlier = items.drop_last();
        assert(forall|j: int| 0 <= j < earlier.len() ==> earlier[j] == items[j]);
        lemma_filter_keeps_all(earlier, keep);
        assert(earlier.push(items.last()) =~= items);
    }
}

/// A copy of `strings` with the same texts.
pub fn clone_strings(strings: &Vec<String>) -> (copy: Vec<String>)
    ensures
        texts(copy@) == texts(strings@),
        copy@.len() == strings@.len(),
{
    let copy = strings.clone();
    copy
}

} // verus!

//! The order in which the test cases of a program are run: names with
//! numbers in them are put in the order of the numbers, as the
//! `alphanumeric-sort` crate compares them.

use vstd::prelude::*;
use vstd::string::*;
use crate::text::texts;

verus! {

/// How `alphanumeric_sort::compare_str` compares two texts: `-1` where the
/// first comes before the second, `0` where neither comes first, `1` where
/// the second comes before the first.
pub uninterp spec fn alphanumeric_order(first: Seq<char>, second: Seq<char>) -> i8;

/// Calls `alphanumeric_sort::compare_str`. Its answer is a function of the
/// two texts alone; nothing more is claimed of it.
#[verifier::external_body]
pub(crate) fn compare(first: &str, second: &str) -> (sign: i8)
    ensures
        sign == alphanumeric_order(first@, second@),
{
    match alphanumeric_sort::compare_str(first, second) {
        std::cmp::Ordering::Less => -1,
        std::cmp::Ordering::Equal => 0,
        std::cmp::Ordering::Greater => 1,
    }
}

/// Whether the first text may stand before the second.
pub open spec fn in_order(first: Seq<char>, second: Seq<char>) -> bool {
    alphanumeric_order(first, second) <= 0
}

/// Whether every text of a list may stand before all that follow it.
pub open spec fn ordered(list: Seq<Seq<char>>) -> bool {
    forall|i: int, j: int| 0 <= i < j < list.len() ==> in_order(list[i], list[j])
}

/// Whether the comparison orders all texts: of two texts one may stand
/// before the other, and what may stand before a text may stand before all
/// that the text may stand before.
pub open spec fn order_is_total() -> bool {
    &&& forall|a: Seq<char>, b: Seq<char>| #[trigger] in_order(a, b) || in_order(b, a)
    &&& forall|a: Seq<char>, b: Seq<char>, c: Seq<char>|
        #[trigger] in_order(a, b) && #[trigger] in_order(b, c) ==> in_order(a, c)
}

/// Where a text goes into an ordered list: behind all that may stand before
/// it, from the front.
fn place(sorted: &Vec<String>, item: &str) -> (at: usize)
    ensures
        at <= sorted@.len(),
        forall|k: int| 0 <= k < at ==> in_order(#[trigger] sorted@[k]@, item@),
        at < sorted@.len() ==> !in_order(sorted@[at as int]@, item@),
{
    let mut at: usize = 0;
    while at < sorted.len() && compare(sorted[at].as_str(), item) <= 0
        invariant
            at <= sorted@.len(),
            forall|k: int| 0 <= k < at ==> in_order(#[trigger] sorted@[k]@, item@),
        decreases sorted@.len() - at,
    {
        at = at + 1;
    }
    at
}

/// Puts a list of names in alphanumeric order.
///
/// The result holds the same names, each as often as the list does: a list
/// without a name twice stays one. It is ordered wherever the comparison
/// orders all texts; the comparison itself is taken as the crate gives it.
pub fn sort_cases(list: Vec<String>) -> (sorted: Vec<String>)
    ensures
        texts(sorted@).to_multiset() == texts(list@).to_multiset(),
        texts(list@).no_duplicates() ==> texts(sorted@).no_duplicates(),
        order_is_total() ==> ordered(texts(sorted@)),
{
    let mut sorted: Vec<String> = Vec::new();
    let mut i: usize = 0;
    assert(texts(sorted@) =~= texts(list@).take(0));
    while i < list.len()
        invariant
            i <= list@.len(),
            texts(sorted@).to_multiset() == texts(list@).take(i as int).to_multiset(),
            order_is_total() ==> ordered(texts(sorted@)),
        decreases list@.len() - i,
    {
        let item = list[i].clone();
        let at = place(&sorted, item.as_str());
        let ghost before = texts(sorted@);
        sorted.insert(at, item);
        proof {
            let after = texts(sorted@);
            assert(after =~= before.insert(at as int, item@));
            vstd::seq_lib::to_multiset_insert(before, at as int, item@);
            let head = texts(list@).take(i as int);
            assert(texts(list@).take(i + 1) =~= head.push(item@));
            vstd::seq_lib::to_multiset_build(head, item@);
            if order_is_total() {
                assert forall|a: int, b: int| 0 <= a < b < after.len() implies in_order(
                    after[a],
                    after[b],
                ) by {
                    if b == at {
                        assert(after[a] == before[a]);
                    } else if a == at {
                        assert(after[b] == before[b - 1]);
                        assert(!in_order(before[at as int], item@));
                        assert(in_order(item@, before[at as int]));
                        if b - 1 > at {
                            assert(in_order(before[at as int], before[b - 1]));
                        }
                    } else if b < at {
                        assert(after[a] == before[a] && after[b] == before[b]);
                    } else if a < at {
                        assert(after[a] == before[a] && after[b] == before[b - 1]);
                    } else {
                        assert(after[a] == before[a - 1] && after[b] == before[b - 1]);
                    }
                }
            }
        }
        i = i + 1;
    }
    assert(texts(list@).take(i as int) =~= texts(list@));
    proof {
        if texts(list@).no_duplicates() {
            texts(list@).lemma_multiset_has_no_duplicates();
            texts(sorted@).lemma_multiset_has_no_duplicates_conv();
        }
    }
    sorted
}

} // verus!

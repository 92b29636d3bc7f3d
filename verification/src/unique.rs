//! Ordered accumulation without repetition.
//!
//! Build flags are ordered lists, never sets: the order in which a flag was
//! first seen is visible in the generated script and has to be stable. This
//! module states what "append unless already there" means and proves the
//! facts the rest of the crate needs about it.

use vstd::prelude::*;
use crate::text::{str_eq, texts};

verus! {

/// `acc` with `x` appended unless `acc` already holds it.
pub open spec fn push_unique<A>(acc: Seq<A>, x: A) -> Seq<A> {
    if acc.contains(x) {
        acc
    } else {
        acc.push(x)
    }
}

/// `acc` followed by the items of `items` that were not seen before, each
/// at the place of its first occurrence.
pub open spec fn merge_unique<A>(acc: Seq<A>, items: Seq<A>) -> Seq<A>
    decreases items.len(),
{
    if items.len() == 0 {
        acc
    } else {
        push_unique(merge_unique(acc, items.drop_last()), items.last())
    }
}

/// The items of `items`, each kept at its first occurrence only.
pub open spec fn dedup<A>(items: Seq<A>) -> Seq<A> {
    merge_unique(Seq::empty(), items)
}

/// The least position of `x` in `s`, or the length of `s` where `x` does
/// not occur.
pub open spec fn first_position<A>(s: Seq<A>, x: A) -> int
    decreases s.len(),
{
    if s.len() == 0 {
        0
    } else if s.first() == x {
        0
    } else {
        1 + first_position(s.drop_first(), x)
    }
}

/// `first_position` is the least position that holds `x`.
pub proof fn lemma_first_position<A>(s: Seq<A>, x: A)
    ensures
        0 <= first_position(s, x) <= s.len(),
        s.contains(x) <==> first_position(s, x) < s.len(),
        first_position(s, x) < s.len() ==> s[first_position(s, x)] == x,
        forall|i: int| 0 <= i < first_position(s, x) ==> s[i] != x,
    decreases s.len(),
{
    if s.len() == 0 {
    } else if s.first() == x {
    } else {
        let rest = s.drop_first();
        lemma_first_position(rest, x);
        let p = first_position(rest, x);
        assert forall|i: int| 0 <= i < 1 + p implies s[i] != x by {
            if i > 0 {
                assert(rest[i - 1] == s[i]);
            }
        }
        if p < rest.len() {
            assert(rest[p] == s[p + 1]);
        }
        if s.contains(x) {
            let k = choose|k: int| 0 <= k < s.len() && s[k] == x;
            assert(rest[k - 1] == x);
        }
    }
}

/// One more item taken from `items` is one more `push_unique`.
pub proof fn lemma_merge_unique_step<A>(acc: Seq<A>, items: Seq<A>, i: int)
    requires
        0 <= i < items.len(),
    ensures
        merge_unique(acc, items.take(i + 1)) == push_unique(
            merge_unique(acc, items.take(i)),
            items[i],
        ),
{
    assert(items.take(i + 1).drop_last() =~= items.take(i));
}

/// Merging keeps what was accumulated as a prefix.
pub proof fn lemma_merge_unique_prefix<A>(acc: Seq<A>, items: Seq<A>)
    ensures
        acc.is_prefix_of(merge_unique(acc, items)),
    decreases items.len(),
{
    if items.len() > 0 {
        lemma_merge_unique_prefix(acc, items.drop_last());
    }
}

/// The result of a merge holds exactly what either argument holds.
pub proof fn lemma_merge_unique_contains<A>(acc: Seq<A>, items: Seq<A>)
    ensures
        forall|x: A| #[trigger]
            merge_unique(acc, items).contains(x) <==> acc.contains(x) || items.contains(x),
    decreases items.len(),
{
    if items.len() > 0 {
        let head = items.drop_last();
        let prev = merge_unique(acc, head);
        lemma_merge_unique_contains(acc, head);
        assert forall|x: A| #[trigger]
            merge_unique(acc, items).contains(x) <==> acc.contains(x) || items.contains(
                x,
            ) by {
            let now = merge_unique(acc, items);
            if now.contains(x) {
                let k = choose|k: int| 0 <= k < now.len() && now[k] == x;
                if k < prev.len() {
                    assert(prev[k] == x);
                    assert(prev.contains(x));
                    if head.contains(x) {
                        let j = choose|j: int| 0 <= j < head.len() && head[j] == x;
                        assert(items[j] == x);
                    }
                } else {
                    assert(items[items.len() - 1] == x);
                }
            }
            if acc.contains(x) {
                assert(prev.contains(x));
                let k = choose|k: int| 0 <= k < prev.len() && prev[k] == x;
                assert(now[k] == x);
            }
            if items.contains(x) {
                let j = choose|j: int| 0 <= j < items.len() && items[j] == x;
                if j < head.len() {
                    assert(head[j] == x);
                    assert(prev.contains(x));
                    let k = choose|k: int| 0 <= k < prev.len() && prev[k] == x;
                    assert(now[k] == x);
                } else {
                    if prev.contains(x) {
                        let k = choose|k: int| 0 <= k < prev.len() && prev[k] == x;
                        assert(now[k] == x);
                    } else {
                        assert(now[prev.len() as int] == x);
                    }
                }
            }
        }
    } else {
        assert forall|x: A| #[trigger]
            merge_unique(acc, items).contains(x) <==> acc.contains(x) || items.contains(
                x,
            ) by {
            if items.contains(x) {
                let j = choose|j: int| 0 <= j < items.len() && items[j] == x;
            }
        }
    }
}

/// Merging into a list without repetition gives a list without repetition.
pub proof fn lemma_merge_unique_no_duplicates<A>(acc: Seq<A>, items: Seq<A>)
    requires
        acc.no_duplicates(),
    ensures
        merge_unique(acc, items).no_duplicates(),
    decreases items.len(),
{
    if items.len() > 0 {
        lemma_merge_unique_no_duplicates(acc, items.drop_last());
    }
}

/// Merging two lists one after the other is merging their concatenation.
pub proof fn lemma_merge_unique_concat<A>(acc: Seq<A>, a: Seq<A>, b: Seq<A>)
    ensures
        merge_unique(merge_unique(acc, a), b) == merge_unique(acc, a + b),
    decreases b.len(),
{
    if b.len() == 0 {
        assert(a + b =~= a);
    } else {
        lemma_merge_unique_concat(acc, a, b.drop_last());
        assert((a + b).drop_last() =~= a + b.drop_last());
        assert((a + b).last() == b.last());
    }
}

/// Merging a list whose items are all there already changes nothing.
pub proof fn lemma_merge_unique_absorb<A>(acc: Seq<A>, items: Seq<A>)
    requires
        forall|i: int| 0 <= i < items.len() ==> acc.contains(#[trigger] items[i]),
    ensures
        merge_unique(acc, items) == acc,
    decreases items.len(),
{
    if items.len() > 0 {
        let head = items.drop_last();
        assert forall|i: int| 0 <= i < head.len() implies acc.contains(#[trigger] head[i]) by {
            assert(head[i] == items[i]);
        }
        lemma_merge_unique_absorb(acc, head);
        assert(acc.contains(items[items.len() - 1]));
    }
}

/// A list without repetition is its own deduplication.
pub proof fn lemma_dedup_of_unique<A>(items: Seq<A>)
    requires
        items.no_duplicates(),
    ensures
        dedup(items) == items,
    decreases items.len(),
{
    if items.len() > 0 {
        let head = items.drop_last();
        lemma_dedup_of_unique(head);
        if head.contains(items.last()) {
            let k = choose|k: int| 0 <= k < head.len() && head[k] == items.last();
            assert(items[k] == items[items.len() - 1]);
        }
        assert(head.push(items.last()) =~= items);
    }
}

/// Deduplication keeps the order of first occurrences: of two items of the
/// result, the earlier one was first seen earlier in the input.
pub proof fn lemma_dedup_first_seen_order<A>(items: Seq<A>)
    ensures
        dedup(items).no_duplicates(),
        forall|x: A| #[trigger] dedup(items).contains(x) <==> items.contains(x),
        forall|i: int, j: int|
            0 <= i < j < dedup(items).len() ==> first_position(items, #[trigger] dedup(items)[i])
                < first_position(items, #[trigger] dedup(items)[j]),
    decreases items.len(),
{
    lemma_merge_unique_no_duplicates(Seq::<A>::empty(), items);
    lemma_merge_unique_contains(Seq::<A>::empty(), items);
    assert forall|x: A| #[trigger] dedup(items).contains(x) <==> items.contains(x) by {
        if Seq::<A>::empty().contains(x) {
            let k = choose|k: int| 0 <= k < Seq::<A>::empty().len() && Seq::<A>::empty()[k] == x;
        }
    }
    if items.len() > 0 {
        let head = items.drop_last();
        let d = dedup(items);
        let dh = dedup(head);
        lemma_dedup_first_seen_order(head);
        assert forall|i: int, j: int| 0 <= i < j < d.len() implies first_position(
            items,
            #[trigger] d[i],
        ) < first_position(items, #[trigger] d[j]) by {
            assert(d[i] == dh[i]);
            assert(dh.contains(dh[i]));
            lemma_first_position_extend(head, items.last(), d[i]);
            assert(head.push(items.last()) =~= items);
            if j < dh.len() {
                assert(dh.contains(dh[j]));
                lemma_first_position_extend(head, items.last(), d[j]);
            } else {
                assert(d[j] == items.last());
                assert(!dh.contains(items.last()));
                lemma_first_position(head, items.last());
                lemma_first_position(head, d[i]);
                lemma_first_position_extend(head, items.last(), d[j]);
            }
        }
    }
}

/// Appending an item moves no first occurrence in what was there, and an
/// item that was not there is first seen at the new end.
pub proof fn lemma_first_position_extend<A>(s: Seq<A>, last: A, x: A)
    ensures
        s.contains(x) ==> first_position(s.push(last), x) == first_position(s, x),
        !s.contains(x) && x == last ==> first_position(s.push(last), x) == s.len(),
    decreases s.len(),
{
    if s.len() == 0 {
        assert(s.push(last).drop_first() =~= s);
        if s.contains(x) {
            let k = choose|k: int| 0 <= k < s.len() && s[k] == x;
        }
    } else if s.first() == x {
        assert(s.push(last).first() == x);
    } else {
        let rest = s.drop_first();
        assert(s.push(last).drop_first() =~= rest.push(last));
        assert(s.push(last).first() == s.first());
        lemma_first_position_extend(rest, last, x);
        if s.contains(x) {
            let k = choose|k: int| 0 <= k < s.len() && s[k] == x;
            assert(rest[k - 1] == x);
        }
        if rest.contains(x) {
            let k = choose|k: int| 0 <= k < rest.len() && rest[k] == x;
            assert(s[k + 1] == x);
        }
    }
}

/// Whether `v` holds a string with the text of `x`.
pub fn contains_string(v: &Vec<String>, x: &str) -> (r: bool)
    ensures
        r == texts(v@).contains(x@),
{
    let mut i: usize = 0;
    while i < v.len()
        invariant
            i <= v@.len(),
            forall|k: int| 0 <= k < i ==> texts(v@)[k] != x@,
        decreases v@.len() - i,
    {
        if str_eq(v[i].as_str(), x) {
            assert(texts(v@)[i as int] == x@);
            return true;
        }
        i += 1;
    }
    false
}

/// Appends `x` to `acc` unless a string with the same text is there.
pub fn push_unique_string(acc: &mut Vec<String>, x: &str)
    ensures
        texts(final(acc)@) == push_unique(texts(old(acc)@), x@),
{
    if !contains_string(acc, x) {
        acc.push(x.to_owned());
        assert(texts(acc@) =~= texts(old(acc)@).push(x@));
    }
}

/// Appends to `acc` the strings of `items` that it does not hold yet.
pub fn merge_strings(acc: &mut Vec<String>, items: &Vec<String>)
    ensures
        texts(final(acc)@) == merge_unique(texts(old(acc)@), texts(items@)),
{
    let mut i: usize = 0;
    while i < items.len()
        invariant
            i <= items@.len(),
            texts(acc@) == merge_unique(texts(old(acc)@), texts(items@).take(i as int)),
        decreases items@.len() - i,
    {
        proof {
            lemma_merge_unique_step(texts(old(acc)@), texts(items@), i as int);
        }
        push_unique_string(acc, items[i].as_str());
        i += 1;
    }
    assert(texts(items@).take(items@.len() as int) =~= texts(items@));
}

/// The strings of `inputs`, each kept at its first occurrence only.
pub fn deduplicate(inputs: Vec<String>) -> (r: Vec<String>)
    ensures
        texts(r@) == dedup(texts(inputs@)),
        texts(r@).no_duplicates(),
{
    let mut out: Vec<String> = Vec::new();
    assert(texts(out@) =~= Seq::<Seq<char>>::empty());
    merge_strings(&mut out, &inputs);
    proof {
        lemma_merge_unique_no_duplicates(Seq::<Seq<char>>::empty(), texts(inputs@));
    }
    out
}

/// Appends the strings of `items` to `acc`, repetitions and all.
pub fn extend_strings(acc: &mut Vec<String>, items: &Vec<String>)
    ensures
        texts(final(acc)@) == texts(old(acc)@) + texts(items@),
{
    let mut i: usize = 0;
    while i < items.len()
        invariant
            i <= items@.len(),
            texts(acc@) == texts(old(acc)@) + texts(items@).take(i as int),
        decreases items@.len() - i,
    {
        let ghost before = acc@;
        let item: String = items[i].clone();
        acc.push(item);
        i += 1;
        proof {
            assert(texts(acc@) =~= texts(before).push(items@[i - 1]@));
            assert(texts(items@).take(i as int) =~= texts(items@).take(i - 1).push(
                items@[i - 1]@,
            ));
        }
    }
    assert(texts(items@).take(items@.len() as int) =~= texts(items@));
}

/// A copy of `items`.
pub fn clone_strings(items: &Vec<String>) -> (r: Vec<String>)
    ensures
        texts(r@) == texts(items@),
{
    let mut out: Vec<String> = Vec::new();
    assert(texts(out@) =~= Seq::<Seq<char>>::empty());
    extend_strings(&mut out, items);
    assert(Seq::<Seq<char>>::empty() + texts(items@) =~= texts(items@));
    out
}

} // verus!

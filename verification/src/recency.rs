//! The order in which stories are listed: the one changed last comes first,
//! and stories changed at the same time keep the order they had.

use vstd::prelude::*;
use crate::manifest::{entry_views, StoryManifestEntry, StoryManifestEntryView};
use crate::text::{
    lemma_lex_le_total, lex_le, str_le,
};

verus! {

/// `a` was changed strictly later than `b`, going by their time stamps as
/// text.
pub open spec fn newer(a: StoryManifestEntryView, b: StoryManifestEntryView) -> bool {
    !lex_le(a.story.updated_at, b.story.updated_at)
}

/// No entry of `s` is followed by a newer one.
pub open spec fn newest_first(s: Seq<StoryManifestEntryView>) -> bool {
    forall|i: int, j: int| 0 <= i < j < s.len() ==> !newer(#[trigger] s[j], #[trigger] s[i])
}

/// Where `x` goes into `sorted`: behind the last entry that is not older
/// than it.
pub open spec fn insertion_point(sorted: Seq<StoryManifestEntryView>, x: StoryManifestEntryView) -> int
    decreases sorted.len(),
{
    if sorted.len() > 0 && newer(x, sorted.last()) {
        insertion_point(sorted.drop_last(), x)
    } else {
        sorted.len() as int
    }
}

/// The entries of `s`, newest first; entries of the same time keep their
/// order.
pub open spec fn by_recency(s: Seq<StoryManifestEntryView>) -> Seq<StoryManifestEntryView>
    decreases s.len(),
{
    if s.len() == 0 {
        s
    } else {
        let head = by_recency(s.drop_last());
        head.insert(insertion_point(head, s.last()), s.last())
    }
}

/// The insertion point lies behind every entry that is not older than `x`
/// and before every entry that `x` is newer than.
pub proof fn lemma_insertion_point(sorted: Seq<StoryManifestEntryView>, x: StoryManifestEntryView)
    ensures
        0 <= insertion_point(sorted, x) <= sorted.len(),
        forall|k: int|
            insertion_point(sorted, x) <= k < sorted.len() ==> newer(x, #[trigger] sorted[k]),
        insertion_point(sorted, x) > 0 ==> !newer(x, sorted[insertion_point(sorted, x) - 1]),
    decreases sorted.len(),
{
    if sorted.len() > 0 && newer(x, sorted.last()) {
        let front = sorted.drop_last();
        lemma_insertion_point(front, x);
        assert forall|k: int| insertion_point(sorted, x) <= k < sorted.len() implies newer(
            x,
            #[trigger] sorted[k],
        ) by {
            if k < front.len() {
                assert(sorted[k] == front[k]);
            }
        }
        if insertion_point(sorted, x) > 0 {
            assert(sorted[insertion_point(sorted, x) - 1] == front[insertion_point(front, x) - 1]);
        }
    }
}

/// Sorting keeps every entry, as often as it occurs.
pub proof fn law_by_recency_permutes(s: Seq<StoryManifestEntryView>)
    ensures
        by_recency(s).len() == s.len(),
        by_recency(s).to_multiset() == s.to_multiset(),
    decreases s.len(),
{
    broadcast use vstd::seq_lib::to_multiset_insert;

    if s.len() > 0 {
        let head = by_recency(s.drop_last());
        law_by_recency_permutes(s.drop_last());
        lemma_insertion_point(head, s.last());
        assert(s == s.drop_last().push(s.last()));
        vstd::seq_lib::to_multiset_build(s.drop_last(), s.last());
        vstd::seq_lib::to_multiset_insert(head, insertion_point(head, s.last()), s.last());
    }
}

/// The sorted entries are newest first.
pub proof fn law_by_recency_orders(s: Seq<StoryManifestEntryView>)
    ensures
        newest_first(by_recency(s)),
    decreases s.len(),
{
    if s.len() > 0 {
        let head = by_recency(s.drop_last());
        let x = s.last();
        let p = insertion_point(head, x);
        law_by_recency_orders(s.drop_last());
        lemma_insertion_point(head, x);
        let r = head.insert(p, x);
        assert forall|i: int, j: int| 0 <= i < j < r.len() implies !newer(
            #[trigger] r[j],
            #[trigger] r[i],
        ) by {
            if j < p {
                assert(r[i] == head[i] && r[j] == head[j]);
            } else if j == p {
                assert(r[i] == head[i]);
                lemma_not_newer_than_earlier(head, x, p, i);
            } else if i < p {
                assert(r[i] == head[i] && r[j] == head[j - 1]);
            } else if i == p {
                assert(r[j] == head[j - 1]);
                assert(newer(x, head[j - 1]));
                lemma_lex_le_total(x.story.updated_at, head[j - 1].story.updated_at);
            } else {
                assert(r[i] == head[i - 1] && r[j] == head[j - 1]);
            }
        }
    }
}

/// In a list that is newest first, an entry that is not newer than the one
/// at `p - 1` is not newer than any before it.
proof fn lemma_not_newer_than_earlier(
    head: Seq<StoryManifestEntryView>,
    x: StoryManifestEntryView,
    p: int,
    i: int,
)
    requires
        newest_first(head),
        0 <= i < p <= head.len(),
        !newer(x, head[p - 1]),
    ensures
        !newer(x, head[i]),
{
    if i < p - 1 {
        assert(!newer(head[p - 1], head[i]));
        crate::text::lemma_lex_le_transitive(
            x.story.updated_at,
            head[p - 1].story.updated_at,
            head[i].story.updated_at,
        );
    }
}

/// A list that is newest first already is left as it is.
pub proof fn lemma_by_recency_keeps_ordered(s: Seq<StoryManifestEntryView>)
    requires
        newest_first(s),
    ensures
        by_recency(s) == s,
    decreases s.len(),
{
    if s.len() > 0 {
        let head = s.drop_last();
        assert forall|i: int, j: int| 0 <= i < j < head.len() implies !newer(
            #[trigger] head[j],
            #[trigger] head[i],
        ) by {
            assert(head[i] == s[i] && head[j] == s[j]);
        }
        lemma_by_recency_keeps_ordered(head);
        if head.len() > 0 {
            assert(head.last() == s[s.len() - 2]);
            assert(!newer(s[s.len() - 1], s[s.len() - 2]));
        }
        assert(insertion_point(head, s.last()) == head.len());
        assert(head.insert(head.len() as int, s.last()) =~= s);
    }
}

/// Sorting twice gives what sorting once gives.
pub proof fn law_by_recency_idempotent(s: Seq<StoryManifestEntryView>)
    ensures
        by_recency(by_recency(s)) == by_recency(s),
{
    law_by_recency_orders(s);
    lemma_by_recency_keeps_ordered(by_recency(s));
}

/// Whether an entry was changed at the time `stamp`.
pub open spec fn changed_at(stamp: Seq<char>) -> spec_fn(StoryManifestEntryView) -> bool {
    |e: StoryManifestEntryView| e.story.updated_at == stamp
}

/// Sorting is stable: the entries changed at one and the same time come
/// out in the order in which they went in.
pub proof fn law_by_recency_is_stable(s: Seq<StoryManifestEntryView>, stamp: Seq<char>)
    ensures
        by_recency(s).filter(changed_at(stamp)) == s.filter(changed_at(stamp)),
    decreases s.len(),
{
    let pred = changed_at(stamp);
    if s.len() > 0 {
        let front = s.drop_last();
        let x = s.last();
        let head = by_recency(front);
        let p = insertion_point(head, x);
        law_by_recency_is_stable(front, stamp);
        lemma_insertion_point(head, x);
        law_by_recency_permutes(front);
        let left = head.subrange(0, p);
        let right = head.subrange(p, head.len() as int);
        assert(head =~= left + right);
        Seq::filter_distributes_over_add(left, right, pred);
        Seq::filter_distributes_over_add(left.push(x), right, pred);
        left.lemma_filter_push(x, pred);
        front.lemma_filter_push(x, pred);
        assert(front.push(x) =~= s);
        if pred(x) {
            assert forall|k: int| 0 <= k < right.len() implies !pred(#[trigger] right[k]) by {
                assert(right[k] == head[p + k]);
                assert(newer(x, head[p + k]));
                crate::text::lemma_lex_le_reflexive(x.story.updated_at);
            }
            assert(right.all(|e: StoryManifestEntryView| !pred(e)));
            right.lemma_all_neg_filter_empty(pred);
            assert(right.filter(pred) =~= Seq::<StoryManifestEntryView>::empty());
            assert(left.filter(pred) + right.filter(pred) =~= left.filter(pred));
            assert(left.filter(pred).push(x) + right.filter(pred) =~= left.filter(pred).push(x));
        } else {
        }
    } else {
    }
}

/// Sorts the entries newest first; entries of the same time keep their
/// order.
pub fn sort_by_recency(entries: &mut Vec<StoryManifestEntry>)
    ensures
        entry_views(final(entries)@) == by_recency(entry_views(old(entries)@)),
{
    let ghost given = entry_views(entries@);
    let n = entries.len();
    let mut i: usize = 0;
    assert(given.take(0) =~= Seq::empty());
    assert(entry_views(entries@).take(0) =~= Seq::empty());
    while i < n
        invariant
            i <= n,
            n == entries.len(),
            given.len() == n,
            entry_views(entries@).take(i as int) == by_recency(given.take(i as int)),
            entry_views(entries@).skip(i as int) == given.skip(i as int),
        decreases n - i,
    {
        let ghost before = entry_views(entries@);
        let ghost head = before.take(i as int);
        let x = entries.remove(i);
        assert(x@ == before[i as int]);
        assert(before[i as int] == before.skip(i as int)[0]);
        assert(x@ == given[i as int]);
        assert(entry_views(entries@) =~= before.remove(i as int));
        assert(entry_views(entries@).take(i as int) =~= head);
        let mut j: usize = i;
        assert(head.take(i as int) =~= head);
        while j > 0 && !str_le(
            x.story.updated_at.as_str(),
            entries[j - 1].story.updated_at.as_str(),
        )
            invariant
                j <= i,
                i < n,
                entries.len() == n - 1,
                head.len() == i,
                entry_views(entries@).take(i as int) == head,
                insertion_point(head, x@) == insertion_point(head.take(j as int), x@),
            decreases j,
        {
            assert(head.take(j as int).last() == entry_views(entries@)[j - 1]);
            assert(head.take(j as int).drop_last() =~= head.take(j - 1));
            j -= 1;
        }
        proof {
            if j > 0 {
                assert(head.take(j as int).last() == entry_views(entries@)[j - 1]);
            }
            assert(insertion_point(head, x@) == j);
        }
        let ghost mid = entry_views(entries@);
        entries.insert(j, x);
        proof {
            assert(entry_views(entries@) =~= mid.insert(j as int, x@));
            assert(given.take(i + 1).drop_last() =~= given.take(i as int));
            assert(given.take(i + 1).last() == x@);
            assert(entry_views(entries@).take(i + 1) =~= head.insert(j as int, x@));
            assert(entry_views(entries@).skip(i + 1) =~= given.skip(i + 1)) by {
                let a = entry_views(entries@).skip(i + 1);
                let b = given.skip(i + 1);
                assert forall|k: int| 0 <= k < n - i - 1 implies #[trigger] a[k] == b[k] by {
                    assert(entry_views(entries@)[i + 1 + k] == mid[i + k]);
                    assert(mid[i + k] == before[i + 1 + k]);
                    assert(before[i + 1 + k] == before.skip(i as int)[k + 1]);
                }
            }
        }
        i += 1;
    }
    assert(given.take(n as int) =~= given);
    assert(entry_views(entries@).take(n as int) =~= entry_views(entries@));
}

} // verus!

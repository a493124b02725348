//! Facts about filtering a sequence.

use vstd::prelude::*;

verus! {

/// What a filter keeps: every item that is kept was there and passes the
/// filter, and every item that passes is kept.
pub proof fn lemma_filter_members<A>(rows: Seq<A>, keep: spec_fn(A) -> bool)
    ensures
        rows.filter(keep).len() <= rows.len(),
        forall|k: int|
            0 <= k < rows.filter(keep).len() ==> keep(#[trigger] rows.filter(keep)[k])
                && rows.contains(rows.filter(keep)[k]),
        forall|i: int|
            0 <= i < rows.len() && keep(rows[i]) ==> rows.filter(keep).contains(#[trigger] rows[i]),
    decreases rows.len(),
{
    reveal(Seq::filter);
    let kept = rows.filter(keep);
    if rows.len() > 0 {
        let front = rows.drop_last();
        let last = rows.last();
        let kept_front = front.filter(keep);
        lemma_filter_members(front, keep);
        assert forall|k: int| 0 <= k < kept.len() implies keep(#[trigger] kept[k])
            && rows.contains(kept[k]) by {
            if k < kept_front.len() {
                assert(kept[k] == kept_front[k]);
                assert(front.contains(kept_front[k]));
                let m = choose|m: int| 0 <= m < front.len() && front[m] == kept_front[k];
                assert(rows[m] == kept[k]);
            } else {
                assert(kept[k] == last);
                assert(rows[rows.len() - 1] == last);
            }
        }
        assert forall|i: int| 0 <= i < rows.len() && keep(rows[i]) implies kept.contains(
            #[trigger] rows[i],
        ) by {
            if i < front.len() {
                assert(front[i] == rows[i]);
                assert(kept_front.contains(front[i]));
                let m = choose|m: int| 0 <= m < kept_front.len() && kept_front[m] == front[i];
                assert(kept[m] == rows[i]);
            } else {
                assert(kept[kept.len() - 1] == rows[i]);
            }
        }
    }
}

/// A filter keeps the order: a relation that holds from each earlier item
/// to each later one still does among the items that are kept.
pub proof fn lemma_filter_keeps_order<A>(
    rows: Seq<A>,
    keep: spec_fn(A) -> bool,
    before: spec_fn(A, A) -> bool,
)
    requires
        forall|i: int, j: int| 0 <= i < j < rows.len() ==> before(rows[i], rows[j]),
    ensures
        forall|a: int, b: int|
            0 <= a < b < rows.filter(keep).len() ==> before(
                rows.filter(keep)[a],
                rows.filter(keep)[b],
            ),
    decreases rows.len(),
{
    reveal(Seq::filter);
    let kept = rows.filter(keep);
    if rows.len() > 0 {
        let front = rows.drop_last();
        let last = rows.last();
        let kept_front = front.filter(keep);
        assert forall|i: int, j: int| 0 <= i < j < front.len() implies before(
            front[i],
            front[j],
        ) by {
            assert(front[i] == rows[i] && front[j] == rows[j]);
        }
        lemma_filter_keeps_order(front, keep, before);
        lemma_filter_members(front, keep);
        assert forall|a: int, b: int| 0 <= a < b < kept.len() implies before(kept[a], kept[b]) by {
            if b < kept_front.len() {
                assert(kept[a] == kept_front[a] && kept[b] == kept_front[b]);
            } else {
                assert(kept[b] == last);
                assert(kept[a] == kept_front[a]);
                assert(front.contains(kept_front[a]));
                let m = choose|m: int| 0 <= m < front.len() && front[m] == kept_front[a];
                assert(rows[m] == kept[a]);
                assert(rows[rows.len() - 1] == last);
            }
        }
    }
}

/// A filter that nothing passes keeps nothing.
pub proof fn lemma_filter_none<A>(rows: Seq<A>, keep: spec_fn(A) -> bool)
    requires
        forall|i: int| 0 <= i < rows.len() ==> !keep(#[trigger] rows[i]),
    ensures
        rows.filter(keep) == Seq::<A>::empty(),
{
    lemma_filter_members(rows, keep);
    let kept = rows.filter(keep);
    if kept.len() > 0 {
        assert(keep(kept[0]) && rows.contains(kept[0]));
        let m = choose|m: int| 0 <= m < rows.len() && rows[m] == kept[0];
        assert(!keep(rows[m]));
    }
    assert(kept =~= Seq::<A>::empty());
}

/// A filter that exactly one item passes keeps that item alone.
pub proof fn lemma_filter_one<A>(rows: Seq<A>, keep: spec_fn(A) -> bool, i: int)
    requires
        0 <= i < rows.len(),
        keep(rows[i]),
        forall|j: int| 0 <= j < rows.len() && j != i ==> !keep(#[trigger] rows[j]),
    ensures
        rows.filter(keep) == seq![rows[i]],
    decreases rows.len(),
{
    reveal(Seq::filter);
    let front = rows.drop_last();
    if i == rows.len() - 1 {
        assert forall|j: int| 0 <= j < front.len() implies !keep(#[trigger] front[j]) by {
            assert(front[j] == rows[j]);
        }
        lemma_filter_none(front, keep);
        assert(rows.filter(keep) =~= seq![rows[i]]);
    } else {
        assert(front[i] == rows[i]);
        assert forall|j: int| 0 <= j < front.len() && j != i implies !keep(#[trigger] front[j]) by {
            assert(front[j] == rows[j]);
        }
        lemma_filter_one(front, keep, i);
        assert(!keep(rows[rows.len() - 1]));
        assert(rows.filter(keep) =~= seq![rows[i]]);
    }
}

} // verus!

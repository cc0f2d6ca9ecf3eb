//! Finding the first item of a sequence that has some property.

use vstd::prelude::*;

verus! {

/// The first position at or after `from` at which `items` holds something that
/// `wanted` accepts; the length of `items` where there is none.
pub open spec fn first_where<A>(items: Seq<A>, wanted: spec_fn(A) -> bool, from: int) -> int
    decreases items.len() - from,
{
    if from >= items.len() {
        items.len() as int
    } else if wanted(items[from]) {
        from
    } else {
        first_where(items, wanted, from + 1)
    }
}

/// What `first_where` finds lies between `from` and the length, holds what is
/// wanted where it is a position, and nothing wanted comes before it.
pub proof fn lemma_first_where<A>(items: Seq<A>, wanted: spec_fn(A) -> bool, from: int)
    requires
        0 <= from <= items.len(),
    ensures
        from <= first_where(items, wanted, from) <= items.len(),
        first_where(items, wanted, from) < items.len() ==> wanted(
            items[first_where(items, wanted, from)],
        ),
        forall|i: int|
            from <= i < first_where(items, wanted, from) ==> !wanted(#[trigger] items[i]),
    decreases items.len() - from,
{
    if from < items.len() && !wanted(items[from]) {
        lemma_first_where(items, wanted, from + 1);
    }
}

/// How many of `items` are wanted.
pub open spec fn count_where<A>(items: Seq<A>, wanted: spec_fn(A) -> bool) -> nat
    decreases items.len(),
{
    if items.len() == 0 {
        0
    } else {
        count_where(items.drop_last(), wanted) + if wanted(items.last()) {
            1nat
        } else {
            0nat
        }
    }
}

/// Those of `items` that are wanted, in their order.
pub open spec fn keep_where<A>(items: Seq<A>, wanted: spec_fn(A) -> bool) -> Seq<A>
    decreases items.len(),
{
    if items.len() == 0 {
        Seq::empty()
    } else if wanted(items.last()) {
        keep_where(items.drop_last(), wanted).push(items.last())
    } else {
        keep_where(items.drop_last(), wanted)
    }
}

/// No more items are wanted than there are, and none is wanted exactly when
/// every item is unwanted.
pub proof fn lemma_count_where<A>(items: Seq<A>, wanted: spec_fn(A) -> bool)
    ensures
        count_where(items, wanted) <= items.len(),
        count_where(items, wanted) == 0 <==> forall|i: int|
            0 <= i < items.len() ==> !wanted(#[trigger] items[i]),
        count_where(items, wanted) == keep_where(items, wanted).len(),
    decreases items.len(),
{
    if items.len() > 0 {
        let front = items.drop_last();
        lemma_count_where(front, wanted);
        if count_where(items, wanted) == 0 {
            assert forall|i: int| 0 <= i < items.len() implies !wanted(#[trigger] items[i]) by {
                if i < front.len() {
                    assert(front[i] == items[i]);
                }
            }
        }
        if forall|i: int| 0 <= i < items.len() ==> !wanted(#[trigger] items[i]) {
            assert(!wanted(items[items.len() - 1]));
            assert forall|i: int| 0 <= i < front.len() implies !wanted(#[trigger] front[i]) by {
                assert(front[i] == items[i]);
            }
        }
    }
}

} // verus!

//! Picking out, of a sequence, what a law speaks of.

use vstd::prelude::*;

verus! {

/// The sequences that `pick` gives for the items of `items`, one after the other.
pub open spec fn pick_all<A, B>(items: Seq<A>, pick: spec_fn(A) -> Seq<B>) -> Seq<B>
    decreases items.len(),
{
    if items.len() == 0 {
        Seq::empty()
    } else {
        pick_all(items.drop_last(), pick) + pick(items.last())
    }
}

/// What is picked of two sequences, one after the other, is picked of each.
pub proof fn pick_all_splits<A, B>(first: Seq<A>, second: Seq<A>, pick: spec_fn(A) -> Seq<B>)
    ensures
        pick_all(first + second, pick) == pick_all(first, pick) + pick_all(second, pick),
    decreases second.len(),
{
    if second.len() == 0 {
        assert(first + second =~= first);
        assert(pick_all(first, pick) + pick_all(second, pick) =~= pick_all(first, pick));
    } else {
        let before = second.drop_last();
        pick_all_splits(first, before, pick);
        assert((first + second).drop_last() =~= first + before);
        assert(pick_all(first, pick) + (pick_all(before, pick) + pick(second.last()))
            =~= pick_all(first, pick) + pick_all(before, pick) + pick(second.last()));
    }
}

/// What is picked of a list of up to six items.
pub proof fn pick_all_of_few<A, B>(items: Seq<A>, pick: spec_fn(A) -> Seq<B>)
    ensures
        items.len() == 1 ==> pick_all(items, pick) == pick(items[0]),
        items.len() == 2 ==> pick_all(items, pick) == pick(items[0]) + pick(items[1]),
        items.len() == 3 ==> pick_all(items, pick) == pick(items[0]) + pick(items[1]) + pick(
            items[2],
        ),
        items.len() == 4 ==> pick_all(items, pick) == pick(items[0]) + pick(items[1]) + pick(
            items[2],
        ) + pick(items[3]),
        items.len() == 6 ==> pick_all(items, pick) == pick(items[0]) + pick(items[1]) + pick(
            items[2],
        ) + pick(items[3]) + pick(items[4]) + pick(items[5]),
{
    reveal_with_fuel(pick_all, 7);
    if items.len() > 0 {
        assert(Seq::<B>::empty() + pick(items[0]) =~= pick(items[0]));
    }
}

/// The last item of `items`, or `default` where there is none.
pub open spec fn last_or<A>(items: Seq<A>, default: A) -> A {
    if items.len() > 0 {
        items.last()
    } else {
        default
    }
}

} // verus!

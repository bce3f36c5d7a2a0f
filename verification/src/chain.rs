//! What a run of updates amounts to.
//!
//! Overwrites compose left to right. Where each update may be absent, a whole
//! run of them comes to a single overwrite, with the last update of the run
//! that is present: a later present update overrides an earlier one, and a
//! later absent update never undoes an earlier present one.

use crate::Overwrite;
use vstd::prelude::*;

verus! {

/// The value that `target` holds after it has been overwritten with each of
/// `updates` in turn, from the first to the last.
pub open spec fn overwritten_by_each<T: Overwrite<Rhs>, Rhs>(target: T, updates: Seq<Rhs>) -> T {
    updates.fold_left(target, |held: T, new: Rhs| *held.overwritten(new))
}

/// Whether `updates[at]` is present and every update after it is absent.
pub open spec fn is_last_present<T>(updates: Seq<Option<T>>, at: int) -> bool {
    &&& 0 <= at < updates.len()
    &&& updates[at] is Some
    &&& forall|later: int| at < later < updates.len() ==> (#[trigger] updates[later]) is None
}

/// The last of `updates` that is present; absent where none of them is.
pub open spec fn last_present<T>(updates: Seq<Option<T>>) -> Option<T> {
    if exists|at: int| is_last_present(updates, at) {
        updates[choose|at: int| is_last_present(updates, at)]
    } else {
        None
    }
}

/// A run of no updates leaves the target as it was.
pub proof fn lemma_empty_chain_keeps_target<T: Overwrite<Rhs>, Rhs>(target: T)
    ensures
        overwritten_by_each(target, Seq::<Rhs>::empty()) == target,
{
}

/// One more update at the end of a run is one more overwrite, of what the run
/// has made of the target.
pub proof fn lemma_chain_step<T: Overwrite<Rhs>, Rhs>(target: T, updates: Seq<Rhs>, new: Rhs)
    ensures
        overwritten_by_each(target, updates.push(new)) == *overwritten_by_each(
            target,
            updates,
        ).overwritten(new),
{
    assert(updates.push(new).drop_last() =~= updates);
}

/// At most one place in a run holds its last present update.
pub proof fn lemma_last_present_is_unique<T>(updates: Seq<Option<T>>, at: int, other: int)
    requires
        is_last_present(updates, at),
        is_last_present(updates, other),
    ensures
        at == other,
{
}

/// The update at the place that `is_last_present` singles out is the one
/// that `last_present` gives.
pub proof fn lemma_last_present_at<T>(updates: Seq<Option<T>>, at: int)
    requires
        is_last_present(updates, at),
    ensures
        last_present(updates) == updates[at],
{
    lemma_last_present_is_unique(updates, at, choose|at: int| is_last_present(updates, at));
}

/// With one more update at the end, the last present update is the new one
/// where it is present, and the one before where it is not.
pub proof fn lemma_last_present_step<T>(updates: Seq<Option<T>>, new: Option<T>)
    ensures
        last_present(updates.push(new)) == (if new is Some {
            new
        } else {
            last_present(updates)
        }),
{
    let longer = updates.push(new);
    if new is Some {
        lemma_last_present_at(longer, updates.len() as int);
    } else {
        assert forall|at: int| is_last_present(longer, at) == is_last_present(updates, at) by {
            if is_last_present(longer, at) {
                assert forall|later: int| at < later < updates.len() implies (
                #[trigger] updates[later]) is None by {
                    assert(longer[later] is None);
                }
            }
        }
    }
}

/// No update is the last present one exactly where every update is absent.
pub proof fn lemma_last_present_is_none_iff_all_absent<T>(updates: Seq<Option<T>>)
    ensures
        last_present(updates) is None <==> forall|at: int|
            0 <= at < updates.len() ==> (#[trigger] updates[at]) is None,
    decreases updates.len(),
{
    if updates.len() > 0 {
        let earlier = updates.drop_last();
        assert(updates =~= earlier.push(updates.last()));
        lemma_last_present_step(earlier, updates.last());
        lemma_last_present_is_none_iff_all_absent(earlier);
    }
}

/// Overwriting a value with each update of a run in turn comes to one
/// overwrite with the last present update of the run: the value ends as the
/// contents of that update, and unchanged where no update is present.
pub proof fn lemma_chain_is_last_present<T>(target: T, updates: Seq<Option<T>>)
    ensures
        overwritten_by_each(target, updates) == *target.overwritten(last_present(updates)),
        forall|at: int| #[trigger]
            is_last_present(updates, at) ==> overwritten_by_each(target, updates) == updates[at]->0,
        (forall|at: int| 0 <= at < updates.len() ==> (#[trigger] updates[at]) is None)
            ==> overwritten_by_each(target, updates) == target,
    decreases updates.len(),
{
    if updates.len() > 0 {
        let earlier = updates.drop_last();
        assert(updates =~= earlier.push(updates.last()));
        lemma_chain_step(target, earlier, updates.last());
        lemma_last_present_step(earlier, updates.last());
        lemma_chain_is_last_present(target, earlier);
    }
}

/// Overwriting an option with each update of a run in turn comes to one
/// overwrite with the last present update of the run: the option ends as
/// that update, and unchanged where no update is present.
pub proof fn lemma_option_chain_is_last_present<T>(target: Option<T>, updates: Seq<Option<T>>)
    ensures
        overwritten_by_each(target, updates) == *target.overwritten(last_present(updates)),
        forall|at: int| #[trigger]
            is_last_present(updates, at) ==> overwritten_by_each(target, updates) == updates[at],
        (forall|at: int| 0 <= at < updates.len() ==> (#[trigger] updates[at]) is None)
            ==> overwritten_by_each(target, updates) == target,
    decreases updates.len(),
{
    if updates.len() > 0 {
        let earlier = updates.drop_last();
        assert(updates =~= earlier.push(updates.last()));
        lemma_chain_step(target, earlier, updates.last());
        lemma_last_present_step(earlier, updates.last());
        lemma_option_chain_is_last_present(target, earlier);
    }
}

} // verus!

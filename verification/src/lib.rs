//! Overwriting a value with an update that may be absent.
//!
//! A target is overwritten *with* an update: a present update wins, an absent
//! one changes nothing. [`Overwrite`] is the capability; every type has it for
//! an optional value of itself, and [`options`] gives it to an option for
//! another option. [`chain`] says what a run of updates amounts to.

use vstd::prelude::*;

pub mod chain;
pub mod options;

verus! {

/// Define how `Self` may be overwritten by another type or by `Self` itself.
///
/// [`overwritten`](Overwrite::overwritten) is the merge policy of an
/// implementation: the value that a target holds once an update has been
/// merged into it. Both operations are bound to it, so an overwrite is a
/// function of its target and its update and of nothing else, and it cannot
/// fail.
pub trait Overwrite<Rhs = Self> {
    /// The value of `self` after it has been overwritten with `new`.
    ///
    /// Stated on borrows, so that a target that cannot be moved has a policy
    /// too.
    spec fn overwritten(&self, new: Rhs) -> &Self;

    /// Merges `new` into `self` in place and hands `self` back, so that calls
    /// can be chained.
    ///
    /// The handle that is returned holds the overwritten value, and it is the
    /// target: what it holds when the caller lets go of it is what `self`
    /// holds from there on.
    fn overwrite_mut(&mut self, new: Rhs) -> (target: &mut Self)
        ensures
            &*target == (*old(self)).overwritten(new),
            &*final(self) == &*final(target),
    ;

    /// Takes `self`, merges `new` into it and returns the result.
    fn overwrite(self, new: Rhs) -> (merged: Self) where Self: Sized
        ensures
            merged == *self.overwritten(new),
    {
        let mut target = self;
        target.overwrite_mut(new);
        target
    }
}

/// Any value can be overwritten with an optional value of its own type: a
/// present update replaces it whole, an absent one leaves it as it was.
impl<T> Overwrite<Option<T>> for T {
    open spec fn overwritten(&self, new: Option<T>) -> &T {
        match new {
            Some(val) => &val,
            None => self,
        }
    }

    fn overwrite_mut(&mut self, new: Option<T>) -> (target: &mut T)
        ensures
            new is None ==> *target == *old(self),
            new matches Some(val) ==> *target == val,
    {
        if let Some(val) = new {
            *self = val;
        }
        self
    }
}

/// An absent update is a no-op: the target keeps its value.
pub proof fn lemma_absent_update_keeps_value<T>(target: T)
    ensures
        *target.overwritten(None::<T>) == target,
{
}

/// A present update replaces the target whole: nothing of the earlier value
/// is left.
pub proof fn lemma_present_update_replaces_value<T>(target: T, val: T)
    ensures
        *target.overwritten(Some(val)) == val,
{
}

/// An overwrite is deterministic: whatever two runs of
/// [`overwrite`](Overwrite::overwrite) return for one target and one update is
/// the same value. This holds of every implementation, since each is bound to
/// its merge policy.
pub proof fn lemma_overwrite_is_deterministic<T: Overwrite<Rhs>, Rhs>(
    target: T,
    new: Rhs,
    first: T,
    second: T,
)
    requires
        call_ensures(<T as Overwrite<Rhs>>::overwrite, (target, new), first),
        call_ensures(<T as Overwrite<Rhs>>::overwrite, (target, new), second),
    ensures
        first == second,
{
}

} // verus!

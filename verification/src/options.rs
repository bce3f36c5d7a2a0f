//! An option as the target of an overwrite.
//!
//! Here the update is an option of the same type as the target. A present
//! update makes the target present with the update's contents, whatever it
//! held before; an absent update never clears the target.

use crate::Overwrite;
use vstd::prelude::*;

verus! {

impl<T> Overwrite for Option<T> {
    open spec fn overwritten(&self, new: Option<T>) -> &Option<T> {
        match new {
            Some(val) => &Some(val),
            None => self,
        }
    }

    fn overwrite_mut(&mut self, new: Option<T>) -> (target: &mut Option<T>)
        ensures
            new is None ==> *target == *old(self),
            new is Some ==> *target == new,
    {
        if let Some(val) = new {
            *self = Some(val);
        }
        self
    }
}

/// An absent update leaves an option as it was: a present one stays present
/// with its contents, an absent one stays absent.
pub proof fn lemma_absent_update_keeps_option<T>(target: Option<T>)
    ensures
        *target.overwritten(None::<T>) == target,
{
}

/// A present update makes the option present with the update's contents,
/// whether the option was present or absent before.
pub proof fn lemma_present_update_fills_option<T>(target: Option<T>, val: T)
    ensures
        *target.overwritten(Some(val)) == Some(val),
{
}

} // verus!

use vstd::prelude::*;

verus! {

/// A value that external callers change by handing it an update.
pub trait UpdateInput: Sized {
    /// The shape of one update.
    type Update;

    /// This value after `update` has been applied to it.
    spec fn updated(&self, update: Self::Update) -> Self;

    /// Applies `update` in place. Collections are expected to merge the update
    /// into what they hold rather than to replace it.
    fn update_mut(&mut self, update: Self::Update)
        ensures
            *final(self) == old(self).updated(update),
    ;
}

} // verus!

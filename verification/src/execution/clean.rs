use vstd::prelude::*;
use super::hash_value::HashValue;

verus! {

/// A value that may keep state which lives for one pass only, such as a list
/// of what was added since the last pass.
pub trait Clean: HashValue + Sized {
    /// This value with its per-pass state discarded.
    spec fn cleaned(&self) -> Self;

    /// Discards the per-pass state. What the value durably holds stays, and so
    /// does its content hash. Doing nothing is a valid implementation.
    fn clean(&mut self)
        ensures
            *final(self) == old(self).cleaned(),
            final(self).content_hash() == old(self).content_hash(),
    ;
}

} // verus!

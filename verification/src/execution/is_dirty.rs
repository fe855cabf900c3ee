use vstd::prelude::*;

verus! {

/// For the dependencies of a node, or its single dependency: whether what was
/// observed of them has changed, so that the value computed from them has to be
/// computed again.
pub trait IsDirty {
    /// Whether the value is dirty.
    spec fn dirty(&self) -> bool;

    fn is_dirty(&self) -> (dirty: bool)
        ensures
            dirty == self.dirty(),
    ;
}

} // verus!

use vstd::prelude::*;
use std::collections::hash_map::DefaultHasher;
use super::dep_state::DependencyState;
use crate::execution::hash_value::HashValue;
use crate::execution::is_dirty::IsDirty;
use crate::execution::node_hash::NodeHash;

verus! {

/// What the resolution of a dependency hands out: the view of the resolved
/// value together with its state. It owns nothing of the node it was taken
/// from, and lives no longer than the view does.
#[derive(Debug)]
pub struct DepRef<T> {
    pub(crate) state: DependencyState,
    pub(crate) data: T,
}

impl<T> DepRef<T> {
    /// The state of the dependency.
    pub open(crate) spec fn status(&self) -> DependencyState {
        self.state
    }

    /// The view of the resolved value.
    pub open(crate) spec fn value(&self) -> T {
        self.data
    }

    /// Pairs a view with the state of the dependency it was resolved through.
    pub fn new(state: DependencyState, data: T) -> (dep_ref: Self)
        ensures
            dep_ref.status() == state,
            dep_ref.value() == data,
    {
        DepRef { state, data }
    }

    /// The state of the dependency.
    pub fn state(&self) -> (state: DependencyState)
        ensures
            state == self.status(),
    {
        self.state
    }

    /// The view of the resolved value.
    pub fn data(&self) -> (data: &T)
        ensures
            *data == self.value(),
    {
        &self.data
    }
}

impl<T> IsDirty for DepRef<T> {
    open spec fn dirty(&self) -> bool {
        self.status() is Dirty
    }

    fn is_dirty(&self) -> (dirty: bool) {
        self.state.is_dirty()
    }
}

/// The content hash of a reference is that of the view it holds.
impl<T: HashValue> HashValue for DepRef<T> {
    open spec fn content_hash(&self) -> NodeHash {
        self.value().content_hash()
    }

    fn hash_value(&self, hasher: &mut DefaultHasher) -> (hash: NodeHash) {
        self.data.hash_value(hasher)
    }
}

impl<T> std::ops::Deref for DepRef<T> {
    type Target = T;

    fn deref(&self) -> (data: &T)
        ensures
            *data == self.value(),
    {
        &self.data
    }
}

} // verus!

use vstd::prelude::*;
use crate::execution::is_dirty::IsDirty;
use crate::execution::node_hash::NodeHash;

verus! {

/// Whether the content behind a dependency has changed since the dependency
/// was last resolved. It is computed afresh by every resolution and stored
/// nowhere.
#[derive(Clone, Copy, Debug, PartialEq, Eq, Structural)]
pub enum DependencyState {
    /// The content hash is the one observed by the previous resolution.
    Clean,
    /// The dependency was never resolved before, or its content hash differs
    /// from the one observed by the previous resolution.
    Dirty,
}

impl DependencyState {
    /// The state of a dependency whose previous resolution observed `last` and
    /// whose current content hash is `current`.
    pub open spec fn classify(last: Option<NodeHash>, current: NodeHash) -> DependencyState {
        if last == Some(current) {
            DependencyState::Clean
        } else {
            DependencyState::Dirty
        }
    }

    /// Compares `current` with the hash remembered in `last`, and remembers
    /// `current` in its place.
    pub fn observe(last: &mut Option<NodeHash>, current: NodeHash) -> (state: DependencyState)
        ensures
            state == Self::classify(*old(last), current),
            *final(last) == Some(current),
    {
        let unchanged = match *last {
            Some(previous) => previous == current,
            None => false,
        };
        if unchanged {
            DependencyState::Clean
        } else {
            *last = Some(current);
            DependencyState::Dirty
        }
    }
}

impl IsDirty for DependencyState {
    open spec fn dirty(&self) -> bool {
        *self is Dirty
    }

    fn is_dirty(&self) -> (dirty: bool) {
        match self {
            DependencyState::Dirty => true,
            DependencyState::Clean => false,
        }
    }
}

} // verus!

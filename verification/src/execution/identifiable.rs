use vstd::prelude::*;

verus! {

/// A node that carries an id.
pub trait Identifiable {
    /// The id of the node.
    spec fn node_id(&self) -> usize;

    fn id(&self) -> (id: usize)
        ensures
            id == self.node_id(),
    ;
}

/// Hands out node ids in sequence.
///
/// The counter belongs to whoever builds the graph, so that two graphs, or two
/// tests, never share one.
#[derive(Debug)]
pub struct NodeIds {
    pub(crate) next: usize,
}

impl NodeIds {
    /// The id that the next call of [`NodeIds::next_node_id`] returns.
    pub open(crate) spec fn upcoming(&self) -> usize {
        self.next
    }

    /// A counter that starts at 0.
    pub fn new() -> (ids: Self)
        ensures
            ids.upcoming() == 0,
    {
        NodeIds { next: 0 }
    }

    /// A counter that starts at `first`.
    pub fn starting_at(first: usize) -> (ids: Self)
        ensures
            ids.upcoming() == first,
    {
        NodeIds { next: first }
    }

    /// Returns the upcoming id and moves on to the one after it. After
    /// `usize::MAX` the counter starts again at 0.
    pub fn next_node_id(&mut self) -> (id: usize)
        ensures
            id == old(self).upcoming(),
            final(self).upcoming() == (if old(self).upcoming() == usize::MAX {
                0
            } else {
                old(self).upcoming() + 1
            }),
    {
        let id: usize = self.next;
        self.next = if id == usize::MAX {
            0
        } else {
            id + 1
        };
        id
    }

    /// Starts the counter again at 0.
    pub fn reset_node_id(&mut self)
        ensures
            final(self).upcoming() == 0,
    {
        self.next = 0;
    }
}

} // verus!

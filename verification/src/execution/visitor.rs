use vstd::prelude::*;
use std::collections::hash_map::DefaultHasher;
use std::collections::HashSet;

verus! {

/// The context that is threaded through one resolution pass. It records which
/// nodes the pass has reached and supplies the hashers, so that a whole pass
/// hashes in one way.
pub trait Visitor {
    /// The ids of the nodes reached so far.
    spec fn visited(&self) -> Set<usize>;

    /// Records that the node `id` was reached. Returns whether this is the
    /// first time in this pass.
    fn visit(&mut self, id: usize) -> (first: bool)
        ensures
            first == !old(self).visited().contains(id),
            final(self).visited() == old(self).visited().insert(id),
    ;

    /// Forgets every node, ready for the next pass.
    fn clear(&mut self)
        ensures
            final(self).visited() == Set::<usize>::empty(),
    ;

    /// A hasher that has absorbed nothing yet.
    fn hasher(&self) -> (hasher: DefaultHasher)
        ensures
            hasher@ == Seq::<Seq<u8>>::empty(),
    ;
}

/// A [`Visitor`] that keeps the ids it has reached in a hash set.
#[derive(Debug)]
pub struct HashSetVisitor {
    pub(crate) visited: HashSet<usize>,
}

impl HashSetVisitor {
    /// A visitor that has reached no node.
    pub fn new() -> (visitor: Self)
        ensures
            visitor.visited() == Set::<usize>::empty(),
    {
        HashSetVisitor { visited: HashSet::new() }
    }

    /// Whether the node `id` was reached in this pass.
    pub fn has_visited(&self, id: usize) -> (seen: bool)
        ensures
            seen == self.visited().contains(id),
    {
        self.visited.contains(&id)
    }
}

impl Visitor for HashSetVisitor {
    open(crate) spec fn visited(&self) -> Set<usize> {
        self.visited@
    }

    fn visit(&mut self, id: usize) -> (first: bool) {
        self.visited.insert(id)
    }

    fn clear(&mut self) {
        self.visited.clear();
    }

    fn hasher(&self) -> (hasher: DefaultHasher) {
        DefaultHasher::new()
    }
}

} // verus!

use vstd::prelude::*;
use super::error::ResolveResult;
use super::hash_value::HashValue;
use super::visitor::Visitor;

verus! {

/// A participant in the graph: a node, or a wrapper around one, that can be
/// asked for its current value.
///
/// The value is handed out as a read-only view that borrows from the
/// participant for `'a`, so it cannot be kept past the next change.
///
/// What a resolution does is a function of the state it starts in. The spec
/// functions below name that function piece by piece, and the two lemmas state
/// what every participant owes the wrappers around it.
pub trait Resolve<'a>: Sized {
    /// The view that a resolution hands out.
    type Output: HashValue;

    /// What a resolution that starts in this state returns.
    spec fn resolution(&self) -> ResolveResult<Self::Output>;

    /// The state that a resolution leaves, whether it succeeds or fails.
    spec fn after_resolve(&self) -> Self;

    /// The ids of the nodes that a resolution reports to the visitor.
    spec fn visits(&self) -> Set<usize>;

    /// What a root pass that starts in this state returns.
    spec fn root_resolution(&self) -> ResolveResult<Self::Output>;

    /// This state with all per-pass bookkeeping discarded.
    spec fn after_clean(&self) -> Self;

    /// A resolution that succeeded can be repeated, and shows the same content
    /// hash when it is.
    proof fn lemma_resolve_stable(&self)
        requires
            self.resolution() is Ok,
        ensures
            self.after_resolve().resolution() is Ok,
            self.after_resolve().resolution()->Ok_0.content_hash()
                == self.resolution()->Ok_0.content_hash(),
    ;

    /// A root pass succeeds where a resolution does, shows the same content
    /// hash, and fails with the same error.
    proof fn lemma_root_agrees(&self)
        ensures
            self.root_resolution() is Ok <==> self.resolution() is Ok,
            self.resolution() is Ok ==> self.root_resolution()->Ok_0.content_hash()
                == self.resolution()->Ok_0.content_hash(),
            self.resolution() is Err ==> self.root_resolution()->Err_0
                == self.resolution()->Err_0,
    ;

    /// Resolves this participant and everything below it. This is the call
    /// that participants make on one another during a pass; it discards no
    /// per-pass bookkeeping.
    fn resolve<V: Visitor>(&'a mut self, visitor: &mut V) -> (r: ResolveResult<Self::Output>)
        ensures
            r == old(self).resolution(),
            *final(self) == old(self).after_resolve(),
            final(visitor).visited() == old(visitor).visited().union(old(self).visits()),
    ;

    /// Runs one full pass from this participant: resolves as
    /// [`Resolve::resolve`] does and, where that succeeds, discards the
    /// per-pass bookkeeping of everything below. The view that comes back is
    /// taken after that. The visitor is left cleared.
    ///
    /// Where the pass succeeded, the state it leaves resolves again, to the
    /// content hash that this pass showed.
    fn resolve_root<V: Visitor>(&'a mut self, visitor: &mut V) -> (r: ResolveResult<Self::Output>)
        ensures
            r == old(self).root_resolution(),
            *final(self) == (if r is Ok {
                old(self).after_resolve().after_clean()
            } else {
                old(self).after_resolve()
            }),
            final(visitor).visited() == Set::<usize>::empty(),
            r is Ok ==> final(self).resolution() is Ok,
            r is Ok ==> final(self).resolution()->Ok_0.content_hash() == r->Ok_0.content_hash(),
    ;

    /// Discards the per-pass bookkeeping of this participant and of everything
    /// below it. Whether a resolution succeeds, and the content hash it shows,
    /// stay as they are.
    fn clean(&mut self)
        ensures
            *final(self) == old(self).after_clean(),
            final(self).resolution() is Ok <==> old(self).resolution() is Ok,
            old(self).resolution() is Ok ==> final(self).resolution()->Ok_0.content_hash()
                == old(self).resolution()->Ok_0.content_hash(),
    ;
}

} // verus!

mod dep_ref;
mod dep_state;

use vstd::prelude::*;

pub use dep_ref::DepRef;
pub use dep_state::DependencyState;

use crate::execution::error::{ResolveError, ResolveResult};
use crate::execution::hash_value::HashValue;
use crate::execution::node_hash::NodeHash;
use crate::execution::resolve::Resolve;
use crate::execution::visitor::Visitor;

verus! {

/// One edge of the graph: a node as seen by one of its consumers.
///
/// The wrapper remembers the content hash that its last resolution observed,
/// and tells its consumer whether the node is dirty from the consumer's point
/// of view. The memory belongs to the edge, not to the node.
#[derive(Debug)]
pub struct Dependency<T> {
    /// The hash observed when the dependency was last resolved.
    pub(crate) last_state: Option<NodeHash>,
    /// Whether the memory above is held by a resolution.
    pub(crate) in_flight: bool,
    /// The wrapped node.
    pub(crate) dependency: T,
}

impl<T> Dependency<T> {
    /// The hash that the last resolution observed, if there was one.
    pub open(crate) spec fn memory(&self) -> Option<NodeHash> {
        self.last_state
    }

    /// Whether the memory is held.
    pub open(crate) spec fn held(&self) -> bool {
        self.in_flight
    }

    /// The wrapped node.
    pub open(crate) spec fn inner(&self) -> T {
        self.dependency
    }

    /// The wrapper that [`Dependency::new`] makes around `dependency`.
    pub open(crate) spec fn fresh(dependency: T) -> Self {
        Dependency { last_state: None, in_flight: false, dependency }
    }

    /// This wrapper around `dependency` in place of its own node.
    pub open(crate) spec fn around(&self, dependency: T) -> Self {
        Dependency { last_state: self.last_state, in_flight: self.in_flight, dependency }
    }

    /// A wrapper around `dependency` that has resolved nothing yet.
    pub fn new(dependency: T) -> (wrapper: Self)
        ensures
            wrapper == Self::fresh(dependency),
            wrapper.memory() is None,
            !wrapper.held(),
            wrapper.inner() == dependency,
    {
        Dependency { last_state: None, in_flight: false, dependency }
    }

    /// A wrapper around `dependency` that remembers `last_state`. With
    /// [`Dependency::into_parts`] this lets several edges take turns at one
    /// node, each with a memory of its own.
    pub fn with_memory(last_state: Option<NodeHash>, dependency: T) -> (wrapper: Self)
        ensures
            wrapper.memory() == last_state,
            !wrapper.held(),
            wrapper.inner() == dependency,
    {
        Dependency { last_state, in_flight: false, dependency }
    }

    /// Takes the wrapper apart into what it remembers and the wrapped node.
    pub fn into_parts(self) -> (parts: (Option<NodeHash>, T))
        ensures
            parts.0 == self.memory(),
            parts.1 == self.inner(),
    {
        (self.last_state, self.dependency)
    }

    /// The hash that the last resolution observed, if there was one.
    pub fn last_state(&self) -> (last: Option<NodeHash>)
        ensures
            last == self.memory(),
    {
        self.last_state
    }

    /// The wrapped node.
    pub fn dependency(&self) -> (dependency: &T)
        ensures
            *dependency == self.inner(),
    {
        &self.dependency
    }

    /// Write access to the wrapped node, to update it between passes.
    pub fn dependency_mut(&mut self) -> (dependency: &mut T)
        ensures
            *dependency == old(self).inner(),
            *final(self) == old(self).around(*final(dependency)),
            final(self).inner() == *final(dependency),
            final(self).memory() == old(self).memory(),
            final(self).held() == old(self).held(),
    {
        &mut self.dependency
    }

    /// Gives up the wrapper, and its memory with it.
    pub fn into_inner(self) -> (dependency: T)
        ensures
            dependency == self.inner(),
    {
        self.dependency
    }

    /// Takes hold of the memory, as a resolution does on entry. Fails where it
    /// is held already.
    pub fn acquire(&mut self) -> (r: ResolveResult<()>)
        ensures
            r is Ok <==> !old(self).held(),
            r is Err ==> r == Err::<(), ResolveError>(ResolveError::EdgeBusy),
            final(self).held(),
            final(self).memory() == old(self).memory(),
            final(self).inner() == old(self).inner(),
    {
        if self.in_flight {
            Err(ResolveError::EdgeBusy)
        } else {
            self.in_flight = true;
            Ok(())
        }
    }

    /// Lets go of the memory.
    pub fn release(&mut self)
        ensures
            !final(self).held(),
            final(self).memory() == old(self).memory(),
            final(self).inner() == old(self).inner(),
    {
        self.in_flight = false;
    }
}

impl<'a, T: Resolve<'a>> Resolve<'a> for Dependency<T> {
    type Output = DepRef<T::Output>;

    open(crate) spec fn resolution(&self) -> ResolveResult<DepRef<T::Output>> {
        if self.in_flight {
            Err(ResolveError::EdgeBusy)
        } else {
            match self.dependency.resolution() {
                Err(e) => Err(e),
                Ok(data) => Ok(
                    DepRef {
                        state: DependencyState::classify(self.last_state, data.content_hash()),
                        data,
                    },
                ),
            }
        }
    }

    open(crate) spec fn after_resolve(&self) -> Self {
        if self.in_flight {
            *self
        } else {
            Dependency {
                last_state: match self.dependency.resolution() {
                    Err(_) => self.last_state,
                    Ok(data) => Some(data.content_hash()),
                },
                in_flight: false,
                dependency: self.dependency.after_resolve(),
            }
        }
    }

    open(crate) spec fn visits(&self) -> Set<usize> {
        if self.in_flight {
            Set::<usize>::empty()
        } else {
            self.dependency.visits()
        }
    }

    open(crate) spec fn root_resolution(&self) -> ResolveResult<DepRef<T::Output>> {
        if self.in_flight {
            Err(ResolveError::EdgeBusy)
        } else {
            match self.dependency.root_resolution() {
                Err(e) => Err(e),
                Ok(data) => Ok(
                    DepRef {
                        state: DependencyState::classify(self.last_state, data.content_hash()),
                        data,
                    },
                ),
            }
        }
    }

    open(crate) spec fn after_clean(&self) -> Self {
        Dependency {
            last_state: self.last_state,
            in_flight: self.in_flight,
            dependency: self.dependency.after_clean(),
        }
    }

    proof fn lemma_resolve_stable(&self) {
        self.dependency.lemma_resolve_stable();
    }

    proof fn lemma_root_agrees(&self) {
        self.dependency.lemma_root_agrees();
    }

    /// Resolves the wrapped node and tells whether its content has changed
    /// since this wrapper last resolved it.
    ///
    /// Where the memory is held the call fails with `EdgeBusy` and touches
    /// nothing. Where the node fails to resolve, its error is returned and the
    /// memory stays as it was. Otherwise the content hash of the view is
    /// compared with the memory: the result is `Clean` where they are equal,
    /// and `Dirty` where they differ or nothing was remembered. The hash is
    /// remembered in either case.
    fn resolve<V: Visitor>(&'a mut self, visitor: &mut V) -> (r: ResolveResult<DepRef<T::Output>>)
        ensures
            old(self).held() ==> r is Err && r->Err_0 == ResolveError::EdgeBusy
                && *final(self) == *old(self)
                && final(visitor).visited() == old(visitor).visited(),
            !old(self).held() ==> final(self).inner() == old(self).inner().after_resolve()
                && !final(self).held(),
            !old(self).held() ==> (r is Ok <==> old(self).inner().resolution() is Ok),
            !old(self).held() && r is Err ==> r->Err_0 == old(self).inner().resolution()->Err_0
                && final(self).memory() == old(self).memory(),
            r is Ok ==> r->Ok_0.value() == old(self).inner().resolution()->Ok_0
                && final(self).memory() == Some(r->Ok_0.content_hash())
                && r->Ok_0.status() == DependencyState::classify(
                    old(self).memory(),
                    r->Ok_0.content_hash(),
                ),
            r is Ok && old(self).memory() is None ==> r->Ok_0.status() is Dirty,
    {
        match self.acquire() {
            Err(e) => {
                assert(old(visitor).visited().union(Set::<usize>::empty()) == old(visitor).visited());
                return Err(e);
            },
            Ok(()) => {},
        }
        match self.dependency.resolve(visitor) {
            Err(e) => {
                self.in_flight = false;
                Err(e)
            },
            Ok(data) => {
                let mut hasher = visitor.hasher();
                let current = data.hash_value(&mut hasher);
                let state = DependencyState::observe(&mut self.last_state, current);
                self.in_flight = false;
                Ok(DepRef::new(state, data))
            },
        }
    }

    /// Runs one full pass from this wrapper: resolves as
    /// [`Resolve::resolve`] does, and has everything below discard its
    /// per-pass bookkeeping once it has been resolved. The state that comes
    /// back is the one a plain resolution would have found. The visitor is left
    /// cleared.
    fn resolve_root<V: Visitor>(&'a mut self, visitor: &mut V) -> (r: ResolveResult<
        DepRef<T::Output>,
    >)
        ensures
            old(self).held() ==> r is Err && r->Err_0 == ResolveError::EdgeBusy
                && *final(self) == *old(self),
            !old(self).held() ==> (r is Ok <==> old(self).inner().resolution() is Ok),
            !old(self).held() && r is Err ==> r->Err_0 == old(self).inner().resolution()->Err_0
                && final(self).memory() == old(self).memory(),
            r is Ok ==> r->Ok_0.value() == old(self).inner().root_resolution()->Ok_0
                && final(self).memory() == Some(r->Ok_0.content_hash())
                && r->Ok_0.status() == old(self).resolution()->Ok_0.status(),
            r is Ok && old(self).memory() is None ==> r->Ok_0.status() is Dirty,
            r is Ok ==> final(self).resolution() is Ok
                && final(self).resolution()->Ok_0.status() is Clean,
            r is Ok ==> final(self).root_resolution() is Ok
                && final(self).root_resolution()->Ok_0.status() is Clean,
    {
        proof {
            old(self).dependency.lemma_root_agrees();
        }
        match self.acquire() {
            Err(e) => {
                visitor.clear();
                return Err(e);
            },
            Ok(()) => {},
        }
        match self.dependency.resolve_root(visitor) {
            Err(e) => {
                self.in_flight = false;
                Err(e)
            },
            Ok(data) => {
                let mut hasher = visitor.hasher();
                let current = data.hash_value(&mut hasher);
                let state = DependencyState::observe(&mut self.last_state, current);
                self.in_flight = false;
                proof {
                    old(self).dependency.after_resolve().after_clean().lemma_root_agrees();
                }
                Ok(DepRef::new(state, data))
            },
        }
    }

    /// Has everything below discard its per-pass bookkeeping. The memory of the
    /// wrapper stays as it is.
    fn clean(&mut self)
        ensures
            final(self).memory() == old(self).memory(),
            final(self).held() == old(self).held(),
            final(self).inner() == old(self).inner().after_clean(),
    {
        self.dependency.clean();
    }
}

} // verus!

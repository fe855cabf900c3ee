use vstd::prelude::*;
use super::clean::Clean;
use super::error::{ResolveError, ResolveResult};
use super::hash_value::HashValue;
use super::identifiable::{Identifiable, NodeIds};
use super::named::Named;
use super::node_hash::NodeHash;
use super::node_state::NodeState;
use super::resolve::Resolve;
use super::resolve_state::{GuardEvent, ResolveState};
use super::update_input::UpdateInput;
use super::visitor::Visitor;

verus! {

/// A leaf of the graph: a value that external callers update.
///
/// A guard keeps updates and resolutions apart: each starts only when the
/// node is resting, and a node that is held refuses both until it is released.
#[derive(Debug)]
pub struct InputNode<T> {
    pub(crate) resolve_state: ResolveState,
    pub(crate) data: NodeState<T>,
    pub(crate) id: usize,
}

impl<T> InputNode<T> {
    /// The state of the guard.
    pub open(crate) spec fn guard(&self) -> ResolveState {
        self.resolve_state
    }

    /// The payload and its cached hash.
    pub open(crate) spec fn node_state(&self) -> NodeState<T> {
        self.data
    }

    /// The state of the guard.
    pub fn resolve_state(&self) -> (state: ResolveState)
        ensures
            state == self.guard(),
    {
        self.resolve_state
    }

    /// Takes the guard for a resolution, as [`Resolve::resolve`] does on entry.
    /// Succeeds only on a resting node.
    pub fn begin_resolve(&mut self) -> (r: ResolveResult<()>)
        ensures
            match old(self).guard().transition(GuardEvent::BeginResolve) {
                Some(next) => r is Ok && final(self).guard() == next,
                None => r == Err::<(), ResolveError>(
                    ResolveError::GuardViolation(old(self).guard()),
                ) && final(self).guard() == old(self).guard(),
            },
            final(self).node_state() == old(self).node_state(),
            final(self).node_id() == old(self).node_id(),
    {
        self.resolve_state.advance(GuardEvent::BeginResolve)
    }

    /// Gives back the guard taken by [`InputNode::begin_resolve`].
    pub fn end_resolve(&mut self) -> (r: ResolveResult<()>)
        ensures
            match old(self).guard().transition(GuardEvent::EndResolve) {
                Some(next) => r is Ok && final(self).guard() == next,
                None => r == Err::<(), ResolveError>(
                    ResolveError::GuardViolation(old(self).guard()),
                ) && final(self).guard() == old(self).guard(),
            },
            final(self).node_state() == old(self).node_state(),
            final(self).node_id() == old(self).node_id(),
    {
        self.resolve_state.advance(GuardEvent::EndResolve)
    }

    /// Takes the guard for an update, as [`InputNode::update`] does on entry.
    /// Succeeds only on a resting node.
    pub fn begin_update(&mut self) -> (r: ResolveResult<()>)
        ensures
            match old(self).guard().transition(GuardEvent::BeginUpdate) {
                Some(next) => r is Ok && final(self).guard() == next,
                None => r == Err::<(), ResolveError>(
                    ResolveError::GuardViolation(old(self).guard()),
                ) && final(self).guard() == old(self).guard(),
            },
            final(self).node_state() == old(self).node_state(),
            final(self).node_id() == old(self).node_id(),
    {
        self.resolve_state.advance(GuardEvent::BeginUpdate)
    }

    /// Gives back the guard taken by [`InputNode::begin_update`].
    pub fn end_update(&mut self) -> (r: ResolveResult<()>)
        ensures
            match old(self).guard().transition(GuardEvent::EndUpdate) {
                Some(next) => r is Ok && final(self).guard() == next,
                None => r == Err::<(), ResolveError>(
                    ResolveError::GuardViolation(old(self).guard()),
                ) && final(self).guard() == old(self).guard(),
            },
            final(self).node_state() == old(self).node_state(),
            final(self).node_id() == old(self).node_id(),
    {
        self.resolve_state.advance(GuardEvent::EndUpdate)
    }
}

impl<T> Identifiable for InputNode<T> {
    open(crate) spec fn node_id(&self) -> usize {
        self.id
    }

    fn id(&self) -> (id: usize) {
        self.id
    }
}

/// An input node goes by the name of what it holds.
impl<T: Named> Named for InputNode<T> {
    open spec fn label() -> &'static str {
        T::label()
    }

    fn name() -> (name: &'static str) {
        T::name()
    }
}

impl<T: UpdateInput + Clean> InputNode<T> {
    /// What [`InputNode::update`] returns on a node in this state.
    pub open(crate) spec fn update_result(&self) -> ResolveResult<()> {
        if self.resolve_state is Resting {
            Ok(())
        } else {
            Err(ResolveError::GuardViolation(self.resolve_state))
        }
    }

    /// The node that [`InputNode::update`] leaves: on a resting node the
    /// payload has taken the update and its hash is forgotten; a node that is
    /// held stays as it is.
    pub open(crate) spec fn after_update(&self, update: T::Update) -> Self {
        if self.resolve_state is Resting {
            InputNode {
                resolve_state: ResolveState::Resting,
                data: self.data.updated(update),
                id: self.id,
            }
        } else {
            *self
        }
    }

    /// The hash that a resolution of this node shows: the cached one, or that of
    /// the payload where none is cached.
    pub open(crate) spec fn current_hash(&self) -> NodeHash {
        if self.data.node_hash is NotHashed {
            self.data.data.content_hash()
        } else {
            self.data.node_hash
        }
    }

    /// A resting node that holds `data`, not hashed yet, under the next id of
    /// `ids`.
    pub fn new(data: T, ids: &mut NodeIds) -> (node: Self)
        ensures
            node.guard() is Resting,
            node.node_state().hash() == NodeHash::NotHashed,
            node.node_state().payload() == data,
            node.node_id() == old(ids).upcoming(),
            final(ids).upcoming() == (if old(ids).upcoming() == usize::MAX {
                0
            } else {
                old(ids).upcoming() + 1
            }),
    {
        let id: usize = ids.next_node_id();
        Self::new_with_id(data, id)
    }

    /// A resting node that holds `data`, not hashed yet, under the id `id`.
    pub fn new_with_id(data: T, id: usize) -> (node: Self)
        ensures
            node.guard() is Resting,
            node.node_state().hash() == NodeHash::NotHashed,
            node.node_state().payload() == data,
            node.node_id() == id,
    {
        InputNode { resolve_state: ResolveState::Resting, data: NodeState::new(data), id }
    }

    /// Applies `update` to the payload.
    ///
    /// On a resting node the update is applied and the cached hash is
    /// forgotten, so that the next resolution hashes the new payload. On a node
    /// that is being resolved or updated the call fails with the state it found
    /// and changes nothing.
    pub fn update(&mut self, update: T::Update) -> (r: ResolveResult<()>)
        ensures
            r == old(self).update_result(),
            *final(self) == old(self).after_update(update),
            r is Ok <==> old(self).guard() is Resting,
            r is Err ==> r == Err::<(), ResolveError>(
                ResolveError::GuardViolation(old(self).guard()),
            ) && *final(self) == *old(self),
            r is Ok ==> final(self).guard() is Resting
                && final(self).node_id() == old(self).node_id()
                && final(self).node_state().hash() == NodeHash::NotHashed
                && final(self).node_state().payload()
                    == old(self).node_state().payload().updated(update),
    {
        match self.resolve_state.advance(GuardEvent::BeginUpdate) {
            Err(e) => {
                return Err(e);
            },
            Ok(()) => {},
        }
        self.data.update_mut(update);
        self.resolve_state.advance(GuardEvent::EndUpdate)
    }
}

impl<'a, T: 'a + UpdateInput + Clean> Resolve<'a> for InputNode<T> {
    type Output = &'a NodeState<T>;

    open(crate) spec fn resolution(&self) -> ResolveResult<&'a NodeState<T>> {
        if self.resolve_state is Resting {
            Ok(&self.after_resolve().data)
        } else {
            Err(ResolveError::GuardViolation(self.resolve_state))
        }
    }

    open(crate) spec fn after_resolve(&self) -> Self {
        if self.resolve_state is Resting {
            InputNode {
                resolve_state: ResolveState::Resting,
                data: NodeState { node_hash: self.current_hash(), data: self.data.data },
                id: self.id,
            }
        } else {
            *self
        }
    }

    open(crate) spec fn visits(&self) -> Set<usize> {
        if self.resolve_state is Resting {
            Set::<usize>::empty().insert(self.id)
        } else {
            Set::<usize>::empty()
        }
    }

    open(crate) spec fn root_resolution(&self) -> ResolveResult<&'a NodeState<T>> {
        if self.resolve_state is Resting {
            Ok(&self.after_resolve().after_clean().data)
        } else {
            Err(ResolveError::GuardViolation(self.resolve_state))
        }
    }

    open(crate) spec fn after_clean(&self) -> Self {
        InputNode {
            resolve_state: self.resolve_state,
            data: self.data.cleaned(),
            id: self.id,
        }
    }

    proof fn lemma_resolve_stable(&self) {
    }

    proof fn lemma_root_agrees(&self) {
        if self.resolve_state is Resting {
            let plain: &NodeState<T> = &self.after_resolve().data;
            let root: &NodeState<T> = &self.after_resolve().after_clean().data;
            assert(plain.content_hash() == self.current_hash());
            assert(root.content_hash() == self.current_hash());
        }
    }

    /// Hands out the payload with its hash.
    ///
    /// On a resting node the call reports the node to the visitor, hashes the
    /// payload where no hash is cached, and returns a view of the node state.
    /// On a node that is being resolved or updated it fails with the state it
    /// found and changes nothing, the visitor included.
    fn resolve<V: Visitor>(&'a mut self, visitor: &mut V) -> (r: ResolveResult<&'a NodeState<T>>)
        ensures
            r is Ok <==> old(self).guard() is Resting,
            r is Err ==> r->Err_0 == ResolveError::GuardViolation(old(self).guard())
                && *final(self) == *old(self)
                && final(visitor).visited() == old(visitor).visited(),
            r is Ok ==> *r->Ok_0 == final(self).node_state()
                && final(self).guard() is Resting
                && final(self).node_id() == old(self).node_id()
                && final(self).node_state().payload() == old(self).node_state().payload()
                && final(self).node_state().hash() == old(self).current_hash()
                && final(visitor).visited() == old(visitor).visited().insert(old(self).node_id()),
    {
        match self.resolve_state.advance(GuardEvent::BeginResolve) {
            Err(e) => {
                assert(old(visitor).visited().union(Set::<usize>::empty()) == old(visitor).visited());
                return Err(e);
            },
            Ok(()) => {},
        }
        visitor.visit(self.id);
        if !self.data.node_hash.is_hashed() {
            self.data.update_node_hash(&*visitor);
        }
        assert(old(visitor).visited().union(Set::<usize>::empty().insert(self.id))
            == old(visitor).visited().insert(self.id));
        match self.resolve_state.advance(GuardEvent::EndResolve) {
            Err(e) => Err(e),
            Ok(()) => Ok(&self.data),
        }
    }

    /// Runs one pass on this node alone: resolves it as
    /// [`Resolve::resolve`] does, then lets the payload discard its per-pass
    /// state, and returns a view taken after that. The visitor is left cleared,
    /// also where the guard refuses the pass.
    fn resolve_root<V: Visitor>(&'a mut self, visitor: &mut V) -> (r: ResolveResult<&'a NodeState<T>>)
        ensures
            r is Ok <==> old(self).guard() is Resting,
            r is Err ==> r->Err_0 == ResolveError::GuardViolation(old(self).guard())
                && *final(self) == *old(self),
            r is Ok ==> *r->Ok_0 == final(self).node_state()
                && final(self).guard() is Resting
                && final(self).node_id() == old(self).node_id()
                && final(self).node_state().payload() == old(self).node_state().payload().cleaned()
                && final(self).node_state().hash() == old(self).current_hash(),
    {
        match self.resolve_state.advance(GuardEvent::BeginResolve) {
            Err(e) => {
                visitor.clear();
                return Err(e);
            },
            Ok(()) => {},
        }
        visitor.visit(self.id);
        if !self.data.node_hash.is_hashed() {
            self.data.update_node_hash(&*visitor);
        }
        self.data.clean();
        visitor.clear();
        match self.resolve_state.advance(GuardEvent::EndResolve) {
            Err(e) => Err(e),
            Ok(()) => Ok(&self.data),
        }
    }

    /// Lets the payload discard its per-pass state. The guard, the cached hash
    /// and the id stay as they are.
    fn clean(&mut self)
        ensures
            final(self).guard() == old(self).guard(),
            final(self).node_id() == old(self).node_id(),
            final(self).node_state().hash() == old(self).node_state().hash(),
            final(self).node_state().payload() == old(self).node_state().payload().cleaned(),
    {
        self.data.clean();
        proof {
            if old(self).resolve_state is Resting {
                let before: &NodeState<T> = &old(self).after_resolve().data;
                let after: &NodeState<T> = &self.after_resolve().data;
                assert(before.content_hash() == old(self).current_hash());
                assert(after.content_hash() == self.current_hash());
            }
        }
    }
}

} // verus!

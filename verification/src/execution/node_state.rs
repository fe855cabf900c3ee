use vstd::prelude::*;
use std::collections::hash_map::DefaultHasher;
use super::clean::Clean;
use super::hash_value::HashValue;
use super::node_hash::NodeHash;
use super::update_input::UpdateInput;
use super::visitor::Visitor;

verus! {

/// The payload of a node together with the hash last computed for it.
///
/// The hash is `NotHashed` until the payload is first summarised, and again
/// after the payload has changed.
#[derive(Debug)]
pub struct NodeState<T> {
    pub(crate) node_hash: NodeHash,
    pub(crate) data: T,
}

impl<T> NodeState<T> {
    /// The cached hash.
    pub open(crate) spec fn hash(&self) -> NodeHash {
        self.node_hash
    }

    /// The payload.
    pub open(crate) spec fn payload(&self) -> T {
        self.data
    }

    /// A state for `data` that has not been hashed yet.
    pub fn new(data: T) -> (state: Self)
        ensures
            state.hash() == NodeHash::NotHashed,
            state.payload() == data,
    {
        NodeState { node_hash: NodeHash::NotHashed, data }
    }

    /// The cached hash.
    pub fn node_hash(&self) -> (hash: NodeHash)
        ensures
            hash == self.hash(),
    {
        self.node_hash
    }

    /// A read-only view of the payload.
    pub fn data(&self) -> (data: &T)
        ensures
            *data == self.payload(),
    {
        &self.data
    }

    /// Write access to the payload. The cached hash is left as it is: call
    /// [`NodeState::update_node_hash`] once the payload has its new value.
    pub fn data_mut(&mut self) -> (data: &mut T)
        ensures
            *data == old(self).payload(),
            final(self).payload() == *final(data),
            final(self).hash() == old(self).hash(),
    {
        &mut self.data
    }

    /// Forgets the cached hash.
    pub fn invalidate(&mut self)
        ensures
            final(self).hash() == NodeHash::NotHashed,
            final(self).payload() == old(self).payload(),
    {
        self.node_hash = NodeHash::NotHashed;
    }
}

impl<T: HashValue> NodeState<T> {
    /// Summarises the payload with a hasher of `visitor` and caches the result.
    pub fn update_node_hash<V: Visitor>(&mut self, visitor: &V)
        ensures
            final(self).hash() == old(self).payload().content_hash(),
            final(self).payload() == old(self).payload(),
    {
        let mut hasher = visitor.hasher();
        self.node_hash = self.data.hash_value(&mut hasher);
    }
}

/// The hash of a node state is the cached one: reading it hashes nothing.
impl<T> HashValue for NodeState<T> {
    open spec fn content_hash(&self) -> NodeHash {
        self.hash()
    }

    fn hash_value(&self, hasher: &mut DefaultHasher) -> (hash: NodeHash)
        ensures
            hash == self.hash(),
            *final(hasher) == *old(hasher),
    {
        self.node_hash
    }
}

/// An update goes to the payload, and the cached hash is forgotten with it.
impl<T: UpdateInput> UpdateInput for NodeState<T> {
    type Update = T::Update;

    open(crate) spec fn updated(&self, update: T::Update) -> Self {
        NodeState { node_hash: NodeHash::NotHashed, data: self.data.updated(update) }
    }

    fn update_mut(&mut self, update: T::Update)
        ensures
            final(self).hash() == NodeHash::NotHashed,
            final(self).payload() == old(self).payload().updated(update),
    {
        self.data.update_mut(update);
        self.node_hash = NodeHash::NotHashed;
    }
}

/// Cleaning goes to the payload. The cached hash stays.
impl<T: Clean> Clean for NodeState<T> {
    open(crate) spec fn cleaned(&self) -> Self {
        NodeState { node_hash: self.node_hash, data: self.data.cleaned() }
    }

    fn clean(&mut self)
        ensures
            final(self).hash() == old(self).hash(),
            final(self).payload() == old(self).payload().cleaned(),
            final(self).payload().content_hash() == old(self).payload().content_hash(),
    {
        self.data.clean();
    }
}

impl<T> std::ops::Deref for NodeState<T> {
    type Target = T;

    fn deref(&self) -> (data: &T)
        ensures
            *data == self.payload(),
    {
        &self.data
    }
}

} // verus!

use vstd::prelude::*;
use std::collections::hash_map::DefaultHasher;
use super::node_hash::NodeHash;

verus! {

/// A value that can be summarised into a [`NodeHash`].
///
/// Under a hasher that has absorbed nothing yet, the summary is a function of
/// the value alone: equal values have equal hashes. Distinct values may
/// collide; a collision makes a changed value look unchanged and is accepted.
pub trait HashValue {
    /// The hash of this value under a hasher that has absorbed nothing yet.
    spec fn content_hash(&self) -> NodeHash;

    /// Summarises the value with `hasher`. The traversal supplies the hasher
    /// fresh, and for a fresh hasher the result is the content hash.
    fn hash_value(&self, hasher: &mut DefaultHasher) -> (hash: NodeHash)
        ensures
            old(hasher)@ == Seq::<Seq<u8>>::empty() ==> hash == self.content_hash(),
    ;
}

impl<'a, T: HashValue> HashValue for &'a T {
    open spec fn content_hash(&self) -> NodeHash {
        (**self).content_hash()
    }

    fn hash_value(&self, hasher: &mut DefaultHasher) -> (hash: NodeHash) {
        (**self).hash_value(hasher)
    }
}

} // verus!

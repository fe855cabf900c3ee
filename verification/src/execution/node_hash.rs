use vstd::prelude::*;

verus! {

/// The fingerprint of a resolved value.
///
/// Two hashes are equal when both the variant and the fingerprint agree.
#[derive(Clone, Copy, Debug, PartialEq, Eq, Structural)]
pub enum NodeHash {
    /// No value has been summarised yet.
    NotHashed,
    /// The fingerprint a hasher produced for the value.
    Hashed(u64),
}

impl NodeHash {
    /// Whether a value has been summarised.
    pub fn is_hashed(&self) -> (b: bool)
        ensures
            b == (*self is Hashed),
    {
        match self {
            NodeHash::Hashed(_) => true,
            NodeHash::NotHashed => false,
        }
    }
}

} // verus!

use vstd::prelude::*;

verus! {

/// A stable, human-readable name for a type of node. Used in diagnostics only.
pub trait Named {
    /// The name of the type.
    spec fn label() -> &'static str;

    fn name() -> (name: &'static str)
        ensures
            name == Self::label(),
    ;
}

} // verus!

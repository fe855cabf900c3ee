use vstd::prelude::*;
use super::resolve_state::ResolveState;

verus! {

/// Why a resolution or an update was refused.
///
/// Both variants report a violation of exclusive access. Neither is recovered
/// from inside the library: the call that meets one returns it at once.
#[derive(Clone, Copy, Debug, PartialEq, Eq, Structural)]
pub enum ResolveError {
    /// A node's guard refused a transition. Holds the state the guard was in.
    GuardViolation(ResolveState),
    /// The memory of a dependency was already held when its resolution began.
    EdgeBusy,
}

pub type ResolveResult<T> = Result<T, ResolveError>;

impl ResolveError {
    /// A short description of the error, for diagnostics.
    pub fn describe(&self) -> (s: &'static str)
        ensures
            s@ == (match *self {
                ResolveError::GuardViolation(ResolveState::Resting) => "guard violation: node is resting"@,
                ResolveError::GuardViolation(ResolveState::Resolving) => "guard violation: node is being resolved"@,
                ResolveError::GuardViolation(ResolveState::Updating) => "guard violation: node is being updated"@,
                ResolveError::EdgeBusy => "dependency is already being resolved"@,
            }),
    {
        match self {
            ResolveError::GuardViolation(ResolveState::Resting) => "guard violation: node is resting",
            ResolveError::GuardViolation(ResolveState::Resolving) => "guard violation: node is being resolved",
            ResolveError::GuardViolation(ResolveState::Updating) => "guard violation: node is being updated",
            ResolveError::EdgeBusy => "dependency is already being resolved",
        }
    }
}

} // verus!

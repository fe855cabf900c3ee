use vstd::prelude::*;
use super::error::{ResolveError, ResolveResult};

verus! {

/// The reentrancy guard of an input node.
///
/// At most one of `Resolving` and `Updating` is active on a node at any time.
#[derive(Clone, Copy, Debug, PartialEq, Eq, Structural)]
pub enum ResolveState {
    /// Neither a resolution nor an update is in flight.
    Resting,
    /// A read traversal is passing through the node.
    Resolving,
    /// An external write is changing the node.
    Updating,
}

/// A request to move a guard from one state to another.
#[derive(Clone, Copy, Debug, PartialEq, Eq, Structural)]
pub enum GuardEvent {
    BeginResolve,
    EndResolve,
    BeginUpdate,
    EndUpdate,
}

impl ResolveState {
    /// The state that `event` leads to from `self`, or `None` where the guard
    /// refuses it. A guard is entered only from `Resting`, and a guard that is
    /// held can only go back to `Resting`, by the exit that matches its entry.
    pub open spec fn transition(self, event: GuardEvent) -> Option<ResolveState> {
        match (self, event) {
            (ResolveState::Resting, GuardEvent::BeginResolve) => Some(ResolveState::Resolving),
            (ResolveState::Resolving, GuardEvent::EndResolve) => Some(ResolveState::Resting),
            (ResolveState::Resting, GuardEvent::BeginUpdate) => Some(ResolveState::Updating),
            (ResolveState::Updating, GuardEvent::EndUpdate) => Some(ResolveState::Resting),
            _ => None,
        }
    }

    /// Takes the transition that `event` asks for, or reports the state that
    /// refused it and changes nothing.
    pub fn advance(&mut self, event: GuardEvent) -> (r: ResolveResult<()>)
        ensures
            match old(self).transition(event) {
                Some(next) => r == Ok::<(), ResolveError>(()) && *final(self) == next,
                None => r == Err::<(), ResolveError>(ResolveError::GuardViolation(*old(self)))
                    && *final(self) == *old(self),
            },
    {
        let next = match (*self, event) {
            (ResolveState::Resting, GuardEvent::BeginResolve) => ResolveState::Resolving,
            (ResolveState::Resolving, GuardEvent::EndResolve) => ResolveState::Resting,
            (ResolveState::Resting, GuardEvent::BeginUpdate) => ResolveState::Updating,
            (ResolveState::Updating, GuardEvent::EndUpdate) => ResolveState::Resting,
            _ => {
                return Err(ResolveError::GuardViolation(*self));
            },
        };
        *self = next;
        Ok(())
    }

    /// Whether the guard is free.
    pub fn is_resting(&self) -> (b: bool)
        ensures
            b == (*self is Resting),
    {
        match self {
            ResolveState::Resting => true,
            _ => false,
        }
    }
}

} // verus!

use std::collections::hash_map::DefaultHasher;
use std::hash::Hasher;

use depends_core::execution::{
    GuardEvent, HashSetVisitor, NodeHash, NodeIds, ResolveError, ResolveState, Visitor,
};

#[test]
fn guard_is_entered_only_from_resting() {
    let mut state = ResolveState::Resting;
    assert!(state.is_resting());
    assert_eq!(state.advance(GuardEvent::BeginResolve), Ok(()));
    assert_eq!(state, ResolveState::Resolving);
    assert!(!state.is_resting());
    assert_eq!(state.advance(GuardEvent::EndResolve), Ok(()));
    assert_eq!(state, ResolveState::Resting);
    assert_eq!(state.advance(GuardEvent::BeginUpdate), Ok(()));
    assert_eq!(state, ResolveState::Updating);
    assert_eq!(state.advance(GuardEvent::EndUpdate), Ok(()));
    assert_eq!(state, ResolveState::Resting);
}

#[test]
fn guard_refuses_every_other_transition() {
    let refused = [
        (ResolveState::Resting, GuardEvent::EndResolve),
        (ResolveState::Resting, GuardEvent::EndUpdate),
        (ResolveState::Resolving, GuardEvent::BeginResolve),
        (ResolveState::Resolving, GuardEvent::BeginUpdate),
        (ResolveState::Resolving, GuardEvent::EndUpdate),
        (ResolveState::Updating, GuardEvent::BeginResolve),
        (ResolveState::Updating, GuardEvent::BeginUpdate),
        (ResolveState::Updating, GuardEvent::EndResolve),
    ];
    for (from, event) in refused {
        let mut state = from;
        assert_eq!(state.advance(event), Err(ResolveError::GuardViolation(from)));
        assert_eq!(state, from);
    }
}

#[test]
fn errors_describe_themselves() {
    assert_eq!(
        ResolveError::GuardViolation(ResolveState::Resting).describe(),
        "guard violation: node is resting"
    );
    assert_eq!(
        ResolveError::GuardViolation(ResolveState::Resolving).describe(),
        "guard violation: node is being resolved"
    );
    assert_eq!(
        ResolveError::GuardViolation(ResolveState::Updating).describe(),
        "guard violation: node is being updated"
    );
    assert_eq!(ResolveError::EdgeBusy.describe(), "dependency is already being resolved");
}

#[test]
fn node_hashes_compare_by_variant_and_fingerprint() {
    assert_eq!(NodeHash::Hashed(1), NodeHash::Hashed(1));
    assert_ne!(NodeHash::Hashed(1), NodeHash::Hashed(2));
    assert_ne!(NodeHash::Hashed(0), NodeHash::NotHashed);
    assert_eq!(NodeHash::NotHashed, NodeHash::NotHashed);
    assert!(NodeHash::Hashed(0).is_hashed());
    assert!(!NodeHash::NotHashed.is_hashed());
}

#[test]
fn node_ids_come_in_sequence() {
    let mut ids = NodeIds::new();
    assert_eq!(ids.next_node_id(), 0);
    assert_eq!(ids.next_node_id(), 1);
    assert_eq!(ids.next_node_id(), 2);
    ids.reset_node_id();
    assert_eq!(ids.next_node_id(), 0);
}

#[test]
fn node_ids_start_again_after_the_last() {
    let mut ids = NodeIds::starting_at(usize::MAX - 1);
    assert_eq!(ids.next_node_id(), usize::MAX - 1);
    assert_eq!(ids.next_node_id(), usize::MAX);
    assert_eq!(ids.next_node_id(), 0);
    assert_eq!(ids.next_node_id(), 1);
}

#[test]
fn visitor_records_each_node_once() {
    let mut visitor = HashSetVisitor::new();
    assert!(!visitor.has_visited(3));
    assert!(visitor.visit(3));
    assert!(!visitor.visit(3));
    assert!(visitor.visit(4));
    assert!(visitor.has_visited(3));
    assert!(visitor.has_visited(4));
    assert!(!visitor.has_visited(5));
    visitor.clear();
    assert!(!visitor.has_visited(3));
    assert!(visitor.visit(3));
}

#[test]
fn visitor_hands_out_fresh_hashers() {
    let visitor = HashSetVisitor::new();
    let mut first = visitor.hasher();
    assert_eq!(first.finish(), DefaultHasher::new().finish());
    first.write(&[1, 2, 3]);
    let second = visitor.hasher();
    assert_eq!(second.finish(), DefaultHasher::new().finish());
    assert_ne!(first.finish(), second.finish());
}

//! What holds of every resolution, stated over the spec functions that the
//! contracts of [`Resolve`], [`Dependency`] and [`InputNode`] are written in.

use vstd::prelude::*;
use super::clean::Clean;
use super::dependency::Dependency;
use super::error::ResolveError;
use super::hash_value::HashValue;
use super::input_node::InputNode;
use super::is_dirty::IsDirty;
use super::resolve::Resolve;
use super::resolve_state::ResolveState;
use super::update_input::UpdateInput;

verus! {

/// The first resolution of a wrapper is dirty, whatever the node holds: a new
/// wrapper resolves where its node does, and the result is `Dirty`. The same
/// holds of a root pass.
pub proof fn lemma_first_resolution_is_dirty<'a, T: Resolve<'a>>(node: T)
    ensures
        Dependency::fresh(node).resolution() is Ok <==> node.resolution() is Ok,
        Dependency::fresh(node).resolution() is Ok ==> Dependency::fresh(
            node,
        ).resolution()->Ok_0.dirty(),
        Dependency::fresh(node).root_resolution() is Ok <==> node.resolution() is Ok,
        Dependency::fresh(node).root_resolution() is Ok ==> Dependency::fresh(
            node,
        ).root_resolution()->Ok_0.dirty(),
{
    node.lemma_root_agrees();
}

/// A wrapper that remembers nothing yet resolves to `Dirty`, however it came
/// to be.
pub proof fn lemma_resolution_without_memory_is_dirty<'a, T: Resolve<'a>>(wrapper: Dependency<T>)
    requires
        wrapper.memory() is None,
        wrapper.resolution() is Ok,
    ensures
        wrapper.resolution()->Ok_0.dirty(),
{
}

/// Where nothing changes the node between two resolutions of a wrapper, the
/// second one is clean: the state that a successful resolution leaves resolves
/// again, to `Clean` and to the same content hash.
pub proof fn lemma_repeated_resolution_is_clean<'a, T: Resolve<'a>>(wrapper: Dependency<T>)
    requires
        wrapper.resolution() is Ok,
    ensures
        wrapper.after_resolve().resolution() is Ok,
        wrapper.after_resolve().resolution()->Ok_0.status() is Clean,
        !wrapper.after_resolve().resolution()->Ok_0.dirty(),
        wrapper.after_resolve().resolution()->Ok_0.content_hash()
            == wrapper.resolution()->Ok_0.content_hash(),
        wrapper.after_resolve().after_resolve().memory() == wrapper.after_resolve().memory(),
{
    wrapper.inner().lemma_resolve_stable();
}

/// The same holds of root passes around an input node, where the cleanup
/// keeps the content hash of the payload, as [`Clean`] asks of it: a second root
/// pass is clean, and shows the payload as the cleanup left it.
pub proof fn lemma_repeated_root_pass_is_clean<'a, T: 'a + UpdateInput + Clean>(
    wrapper: Dependency<InputNode<T>>,
)
    requires
        wrapper.root_resolution() is Ok,
        wrapper.inner().node_state().payload().cleaned().content_hash()
            == wrapper.inner().node_state().payload().content_hash(),
    ensures
        ({
            let next = wrapper.after_resolve().after_clean().root_resolution();
            &&& next is Ok
            &&& next->Ok_0.status() is Clean
            &&& next->Ok_0.content_hash() == wrapper.root_resolution()->Ok_0.content_hash()
            &&& next->Ok_0.value().payload()
                == wrapper.inner().node_state().payload().cleaned().cleaned()
        }),
{
}

/// An update of an input node shows in the next resolution of a wrapper around
/// it exactly where it changes the content hash.
///
/// Take a wrapper that has just resolved its node, and apply `update` to the
/// node. The next resolution succeeds and shows the content hash of the
/// updated payload. It is `Dirty` where that hash differs from the one the
/// wrapper observed before, and `Clean` where the two are equal.
pub proof fn lemma_update_is_detected<'a, T: 'a + UpdateInput + Clean>(
    wrapper: Dependency<InputNode<T>>,
    update: T::Update,
)
    requires
        wrapper.resolution() is Ok,
    ensures
        ({
            let resolved = wrapper.after_resolve();
            let before = wrapper.resolution()->Ok_0.content_hash();
            let after = resolved.inner().node_state().payload().updated(update).content_hash();
            let next = resolved.around(resolved.inner().after_update(update)).resolution();
            &&& resolved.inner().update_result() is Ok
            &&& resolved.inner().node_state().payload() == wrapper.inner().node_state().payload()
            &&& next is Ok
            &&& next->Ok_0.content_hash() == after
            &&& after != before ==> next->Ok_0.status() is Dirty
            &&& after == before ==> next->Ok_0.status() is Clean
        }),
{
}

/// The same after a root pass: the cleanup at the end of the pass comes
/// between the resolution and the update, and the update is applied to the
/// payload as the cleanup left it.
pub proof fn lemma_update_is_detected_after_root_pass<'a, T: 'a + UpdateInput + Clean>(
    wrapper: Dependency<InputNode<T>>,
    update: T::Update,
)
    requires
        wrapper.root_resolution() is Ok,
    ensures
        ({
            let resolved = wrapper.after_resolve().after_clean();
            let before = wrapper.root_resolution()->Ok_0.content_hash();
            let after = resolved.inner().node_state().payload().updated(update).content_hash();
            let next = resolved.around(resolved.inner().after_update(update)).root_resolution();
            &&& resolved.inner().update_result() is Ok
            &&& resolved.inner().node_state().payload()
                == wrapper.inner().node_state().payload().cleaned()
            &&& next is Ok
            &&& next->Ok_0.content_hash() == after
            &&& after != before ==> next->Ok_0.status() is Dirty
            &&& after == before ==> next->Ok_0.status() is Clean
        }),
{
}

/// Two wrappers around one node keep separate histories. Resolving the first
/// leaves the node in a state in which the second resolves exactly where it
/// would have, and to the same state and content hash: what the second
/// remembers is its own.
pub proof fn lemma_edges_are_independent<'a, T: Resolve<'a>>(
    first: Dependency<T>,
    second: Dependency<T>,
)
    requires
        first.inner() == second.inner(),
        first.resolution() is Ok,
    ensures
        ({
            let node = first.after_resolve().inner();
            let later = second.around(node);
            &&& later.memory() == second.memory()
            &&& later.resolution() is Ok <==> second.resolution() is Ok
            &&& second.resolution() is Ok ==> later.resolution()->Ok_0.status()
                == second.resolution()->Ok_0.status()
            &&& second.resolution() is Ok ==> later.resolution()->Ok_0.content_hash()
                == second.resolution()->Ok_0.content_hash()
        }),
{
    first.inner().lemma_resolve_stable();
}

/// A node that is being resolved cannot be resolved again. The attempt fails
/// with the guard's error, reports nothing to the visitor and leaves the node
/// as it was. A wrapper around the node fails in the same way, and remembers
/// what it remembered before.
pub proof fn lemma_reentrant_resolution_is_rejected<'a, T: 'a + UpdateInput + Clean>(
    wrapper: Dependency<InputNode<T>>,
)
    requires
        wrapper.inner().guard() is Resolving,
    ensures
        ({
            let node = wrapper.inner();
            let refused = ResolveError::GuardViolation(ResolveState::Resolving);
            &&& node.resolution() is Err
            &&& node.resolution()->Err_0 == refused
            &&& node.root_resolution() is Err
            &&& node.root_resolution()->Err_0 == refused
            &&& node.after_resolve() == node
            &&& node.visits() == Set::<usize>::empty()
            &&& wrapper.resolution() is Err
            &&& wrapper.root_resolution() is Err
            &&& !wrapper.held() ==> wrapper.resolution()->Err_0 == refused
            &&& wrapper.after_resolve() == wrapper
        }),
{
}

/// A wrapper whose memory is held cannot be resolved. The attempt fails with
/// `EdgeBusy` before it reaches the node, and changes nothing.
pub proof fn lemma_held_wrapper_is_rejected<'a, T: Resolve<'a>>(wrapper: Dependency<T>)
    requires
        wrapper.held(),
    ensures
        wrapper.resolution() is Err,
        wrapper.resolution()->Err_0 == ResolveError::EdgeBusy,
        wrapper.root_resolution() is Err,
        wrapper.root_resolution()->Err_0 == ResolveError::EdgeBusy,
        wrapper.after_resolve() == wrapper,
        wrapper.visits() == Set::<usize>::empty(),
{
}

/// Updates and resolutions of one node exclude one another. While the node is
/// being resolved an update fails, and while it is being updated a resolution
/// fails, and so does a second update. Each failure reports the state that the
/// guard was in and leaves the node as it was.
pub proof fn lemma_update_and_resolution_exclude<'a, T: 'a + UpdateInput + Clean>(
    node: InputNode<T>,
    update: T::Update,
)
    requires
        !(node.guard() is Resting),
    ensures
        node.update_result() == Err::<(), ResolveError>(
            ResolveError::GuardViolation(node.guard()),
        ),
        node.after_update(update) == node,
        node.resolution() is Err,
        node.resolution()->Err_0 == ResolveError::GuardViolation(node.guard()),
        node.after_resolve() == node,
{
}

/// A resolution that fails leaves the memory of the wrapper as it was.
pub proof fn lemma_failure_keeps_memory<'a, T: Resolve<'a>>(wrapper: Dependency<T>)
    requires
        wrapper.resolution() is Err,
    ensures
        wrapper.after_resolve().memory() == wrapper.memory(),
        wrapper.root_resolution() is Err,
        wrapper.root_resolution()->Err_0 == wrapper.resolution()->Err_0,
{
    wrapper.inner().lemma_root_agrees();
}

} // verus!

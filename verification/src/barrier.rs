use vstd::prelude::*;

verus! {

/// Identifies one GPU resource (a swap-chain back buffer, a depth buffer).
/// The embedding program assigns the identifiers; the library only compares
/// them.
#[derive(Clone, Copy, Debug, PartialEq, Eq, Structural)]
pub struct ResourceId {
    pub id: u32,
}

/// The usage state the GPU tracks for a resource.  A resource must be
/// transitioned to the matching state before certain operations are legal.
#[derive(Clone, Copy, Debug, PartialEq, Eq, Structural)]
pub enum ResourceState {
    /// The resource may be presented to the screen.
    Present,
    /// The resource may be bound and written as a render target.
    RenderTarget,
    /// The resource may be written as a depth buffer.
    DepthWrite,
}

/// A state-transition descriptor for one resource, covering all of its
/// subresources.  The helper that builds it is stateless: callers are
/// responsible for knowing the resource's true current state.
#[derive(Clone, Copy, Debug, PartialEq, Eq, Structural)]
pub struct BarrierDesc {
    /// The resource whose state changes.
    pub resource: ResourceId,
    /// The state the resource is in when the barrier executes.
    pub state_before: ResourceState,
    /// The state the resource is in after the barrier executes.
    pub state_after: ResourceState,
}

/// Builds the descriptor for a transition of `resource` from `before` to
/// `after`.  Pure: no side effects, and the result is a function of the
/// arguments alone.
pub fn transition(resource: ResourceId, before: ResourceState, after: ResourceState) -> (r:
    BarrierDesc)
    ensures
        r == (BarrierDesc { resource, state_before: before, state_after: after }),
{
    BarrierDesc { resource, state_before: before, state_after: after }
}

/// The state a resource is in after `barrier` executes, given that it was in
/// `current` before.  A transition only takes effect from its declared
/// before-state; executing a barrier against any other state is a caller
/// error on real hardware, and this model leaves the state unchanged.
pub open spec fn state_after_barrier(current: ResourceState, barrier: BarrierDesc) -> ResourceState {
    if current == barrier.state_before {
        barrier.state_after
    } else {
        current
    }
}

/// Executable form of [`state_after_barrier`].
pub fn apply_barrier(current: ResourceState, barrier: &BarrierDesc) -> (r: ResourceState)
    ensures
        r == state_after_barrier(current, *barrier),
{
    if current == barrier.state_before {
        barrier.state_after
    } else {
        current
    }
}

/// A transition from `a` to `b`, followed by the reverse transition from `b`
/// back to `a`, restores a resource that started in state `a` to that state;
/// and the helper is pure, so the two barriers involved are exactly the two
/// descriptors written here.
pub proof fn lemma_transition_round_trip(resource: ResourceId, a: ResourceState, b: ResourceState)
    ensures
        state_after_barrier(
            state_after_barrier(a, BarrierDesc { resource, state_before: a, state_after: b }),
            BarrierDesc { resource, state_before: b, state_after: a },
        ) == a,
{
}

} // verus!

use dx12_triangle::barrier::{apply_barrier, transition, ResourceId, ResourceState};

#[test]
fn transition_builds_the_descriptor() {
    let desc = transition(
        ResourceId { id: 3 },
        ResourceState::Present,
        ResourceState::RenderTarget,
    );
    assert_eq!(desc.resource, ResourceId { id: 3 });
    assert_eq!(desc.state_before, ResourceState::Present);
    assert_eq!(desc.state_after, ResourceState::RenderTarget);
}

#[test]
fn transition_is_pure() {
    let first = transition(
        ResourceId { id: 9 },
        ResourceState::RenderTarget,
        ResourceState::Present,
    );
    let second = transition(
        ResourceId { id: 9 },
        ResourceState::RenderTarget,
        ResourceState::Present,
    );
    assert_eq!(first, second);
}

#[test]
fn transition_round_trip_restores_the_state() {
    let resource = ResourceId { id: 0 };
    let there = transition(resource, ResourceState::Present, ResourceState::RenderTarget);
    let back = transition(resource, ResourceState::RenderTarget, ResourceState::Present);
    let after_there = apply_barrier(ResourceState::Present, &there);
    assert_eq!(after_there, ResourceState::RenderTarget);
    let after_back = apply_barrier(after_there, &back);
    assert_eq!(after_back, ResourceState::Present);
}

#[test]
fn barrier_leaves_other_states_alone() {
    let barrier = transition(
        ResourceId { id: 1 },
        ResourceState::Present,
        ResourceState::RenderTarget,
    );
    assert_eq!(apply_barrier(ResourceState::DepthWrite, &barrier), ResourceState::DepthWrite);
}

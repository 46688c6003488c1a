use dx12_triangle::barrier::ResourceId;
use dx12_triangle::dx12error::ErrorKind;
use dx12_triangle::frame_targets::{DescriptorHandle, FrameTargets};

fn two_buffer_targets(heap_start: u64, increment: u32) -> FrameTargets {
    FrameTargets::new(
        heap_start,
        increment,
        9000,
        vec![ResourceId { id: 0 }, ResourceId { id: 1 }],
    )
    .unwrap()
}

#[test]
fn rtv_handle_addressing_steps_by_the_increment() {
    let heap_start = 4096;
    let targets = two_buffer_targets(heap_start, 32);
    assert_eq!(targets.frame_buffer_count(), 2);
    assert_eq!(targets.rtv_increment(), 32);
    assert_eq!(targets.rtv_handle(0).unwrap().offset(), heap_start);
    assert_eq!(targets.rtv_handle(1).unwrap().offset(), heap_start + 32);
}

#[test]
fn rtv_handle_out_of_range_fails() {
    let targets = two_buffer_targets(4096, 32);
    let err = targets.rtv_handle(2).unwrap_err();
    assert_eq!(err.kind(), ErrorKind::StateViolation);
}

#[test]
fn dsv_handle_is_the_heap_start_for_every_frame() {
    let targets = two_buffer_targets(4096, 32);
    assert_eq!(targets.dsv_handle().offset(), 9000);
    assert_eq!(targets.dsv_handle().index(), 0);
}

#[test]
fn render_target_resolves_the_frame_resource() {
    let targets = two_buffer_targets(4096, 32);
    assert_eq!(targets.render_target(0).unwrap(), ResourceId { id: 0 });
    assert_eq!(targets.render_target(1).unwrap(), ResourceId { id: 1 });
    let err = targets.render_target(2).unwrap_err();
    assert_eq!(err.kind(), ErrorKind::StateViolation);
}

#[test]
fn descriptor_handle_exposes_its_parts() {
    let handle = DescriptorHandle::new(100, 3, 32).unwrap();
    assert_eq!(handle.base(), 100);
    assert_eq!(handle.index(), 3);
    assert_eq!(handle.stride(), 32);
    assert_eq!(handle.offset(), 196);
}

#[test]
fn descriptor_handle_out_of_address_space_fails() {
    let err = DescriptorHandle::new(u64::MAX, 1, 2).unwrap_err();
    assert_eq!(err.kind(), ErrorKind::StateViolation);
}

#[test]
fn heap_past_the_address_space_is_rejected() {
    let err = FrameTargets::new(
        u64::MAX - 10,
        32,
        0,
        vec![ResourceId { id: 0 }, ResourceId { id: 1 }],
    )
    .unwrap_err();
    assert_eq!(err.kind(), ErrorKind::ResourceCreationFailure);
}

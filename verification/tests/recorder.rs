use dx12_triangle::barrier::{transition, ResourceId, ResourceState};
use dx12_triangle::dx12error::ErrorKind;
use dx12_triangle::frame_targets::DescriptorHandle;
use dx12_triangle::recorder::{
    AllocatorState, ColorRgba, Command, CommandRecorder, PipelineHandle, Viewport,
};

fn handle(base: u64) -> DescriptorHandle {
    DescriptorHandle::new(base, 0, 0).unwrap()
}

#[test]
fn recording_while_closed_fails_with_state_violation() {
    let mut recorder = CommandRecorder::new();
    assert!(!recorder.is_open());
    let color = ColorRgba { r: 0, g: 0, b: 0, a: 0 };
    let barrier = transition(ResourceId { id: 0 }, ResourceState::Present, ResourceState::RenderTarget);

    let err = recorder.set_viewport_and_scissor(Viewport { width: 10, height: 10 }).unwrap_err();
    assert_eq!(err.kind(), ErrorKind::StateViolation);
    let err = recorder.insert_barrier(barrier).unwrap_err();
    assert_eq!(err.kind(), ErrorKind::StateViolation);
    let err = recorder.bind_render_target(handle(1), handle(2)).unwrap_err();
    assert_eq!(err.kind(), ErrorKind::StateViolation);
    let err = recorder.clear_render_target(handle(1), color).unwrap_err();
    assert_eq!(err.kind(), ErrorKind::StateViolation);
    let err = recorder.clear_depth_stencil(handle(2), 0).unwrap_err();
    assert_eq!(err.kind(), ErrorKind::StateViolation);
    assert!(recorder.commands().is_empty());
}

#[test]
fn reset_while_open_fails_and_keeps_recorded_state() {
    let mut recorder = CommandRecorder::new();
    let allocator = AllocatorState::new();
    recorder.reset(&allocator, None).unwrap();
    recorder.set_viewport_and_scissor(Viewport { width: 4, height: 4 }).unwrap();
    let before = recorder.commands().clone();

    let err = recorder.reset(&allocator, None).unwrap_err();
    assert_eq!(err.kind(), ErrorKind::StateViolation);
    assert!(recorder.is_open());
    assert_eq!(recorder.commands(), &before);
}

#[test]
fn reset_with_in_flight_allocator_fails() {
    let mut recorder = CommandRecorder::new();
    let busy = AllocatorState { in_flight: true, pending_value: 1 };
    let err = recorder.reset(&busy, None).unwrap_err();
    assert_eq!(err.kind(), ErrorKind::StateViolation);
    assert!(!recorder.is_open());
}

#[test]
fn exactly_one_close_per_reset() {
    let mut recorder = CommandRecorder::new();
    let allocator = AllocatorState::new();

    let err = recorder.close().unwrap_err();
    assert_eq!(err.kind(), ErrorKind::StateViolation);

    recorder.reset(&allocator, None).unwrap();
    recorder.close().unwrap();
    let err = recorder.close().unwrap_err();
    assert_eq!(err.kind(), ErrorKind::StateViolation);
}

#[test]
fn reset_clears_commands_and_binds_pipeline() {
    let mut recorder = CommandRecorder::new();
    let allocator = AllocatorState::new();
    recorder.reset(&allocator, None).unwrap();
    recorder.clear_render_target(handle(8), ColorRgba { r: 1, g: 2, b: 3, a: 4 }).unwrap();
    recorder.close().unwrap();
    assert_eq!(recorder.commands().len(), 1);

    recorder.reset(&allocator, Some(PipelineHandle { id: 5 })).unwrap();
    assert!(recorder.commands().is_empty());
    assert_eq!(recorder.pipeline(), Some(PipelineHandle { id: 5 }));
}

#[test]
fn viewport_records_derived_scissor_then_viewport() {
    let mut recorder = CommandRecorder::new();
    let allocator = AllocatorState::new();
    recorder.reset(&allocator, None).unwrap();
    recorder.set_viewport_and_scissor(Viewport { width: 1080, height: 720 }).unwrap();

    let commands = recorder.commands();
    assert_eq!(commands.len(), 2);
    match commands[0] {
        Command::SetScissorRect(rect) => {
            assert_eq!(rect.left, 0);
            assert_eq!(rect.top, 0);
            assert_eq!(rect.right, 1080);
            assert_eq!(rect.bottom, 720);
        }
        ref other => panic!("expected a scissor command, got {:?}", other),
    }
    match commands[1] {
        Command::SetViewport(viewport) => {
            assert_eq!(viewport, Viewport { width: 1080, height: 720 });
        }
        ref other => panic!("expected a viewport command, got {:?}", other),
    }
}

#[test]
fn commands_are_recorded_in_call_order() {
    let mut recorder = CommandRecorder::new();
    let allocator = AllocatorState::new();
    let barrier = transition(ResourceId { id: 2 }, ResourceState::Present, ResourceState::RenderTarget);
    let color = ColorRgba { r: 10, g: 20, b: 30, a: 40 };

    recorder.reset(&allocator, None).unwrap();
    recorder.insert_barrier(barrier).unwrap();
    recorder.bind_render_target(handle(64), handle(256)).unwrap();
    recorder.clear_render_target(handle(64), color).unwrap();
    recorder.clear_depth_stencil(handle(256), 77).unwrap();
    recorder.close().unwrap();

    let commands = recorder.commands();
    assert_eq!(commands.len(), 4);
    assert_eq!(commands[0], Command::Barrier(barrier));
    assert_eq!(commands[1], Command::SetRenderTarget(handle(64), handle(256)));
    assert_eq!(commands[2], Command::ClearRenderTarget(handle(64), color));
    assert_eq!(commands[3], Command::ClearDepthStencil(handle(256), 77));
}

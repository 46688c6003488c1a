use vstd::prelude::*;
use crate::barrier::BarrierDesc;
use crate::dx12error::{Dx12Error, ErrorKind};
use crate::frame_targets::DescriptorHandle;

verus! {

/// The drawable region of the frame buffer.  Only the extent is part of the
/// recorded state; depth-range and origin settings are fixed by the embedding
/// program when it replays the commands.
#[derive(Clone, Copy, Debug, PartialEq, Eq, Structural)]
pub struct Viewport {
    pub width: u32,
    pub height: u32,
}

/// A scissor rectangle in pixels.
#[derive(Clone, Copy, Debug, PartialEq, Eq, Structural)]
pub struct ScissorRect {
    pub left: u32,
    pub top: u32,
    pub right: u32,
    pub bottom: u32,
}

/// The scissor rectangle derived from a viewport: the viewport's full extent.
pub open spec fn scissor_for(viewport: Viewport) -> ScissorRect {
    ScissorRect { left: 0, top: 0, right: viewport.width, bottom: viewport.height }
}

/// A clear color.  Each channel is carried as the 32-bit encoding the
/// embedding program chose for it; the library never interprets the bits,
/// it only records them.
#[derive(Clone, Copy, Debug, PartialEq, Eq, Structural)]
pub struct ColorRgba {
    pub r: u32,
    pub g: u32,
    pub b: u32,
    pub a: u32,
}

/// Identifies a pipeline-state object owned by the embedding program.
#[derive(Clone, Copy, Debug, PartialEq, Eq, Structural)]
pub struct PipelineHandle {
    pub id: u32,
}

/// One recorded command, in the order the GPU will execute them.
#[derive(Clone, Copy, Debug, PartialEq, Eq, Structural)]
pub enum Command {
    /// Restrict rasterization to a rectangle.
    SetScissorRect(ScissorRect),
    /// Set the drawable region.
    SetViewport(Viewport),
    /// Declare a resource state transition.
    Barrier(BarrierDesc),
    /// Bind a render-target view and a depth-stencil view for output.
    SetRenderTarget(DescriptorHandle, DescriptorHandle),
    /// Fill a render target with a color.
    ClearRenderTarget(DescriptorHandle, ColorRgba),
    /// Fill a depth buffer with a depth value, carried as its 32-bit encoding.
    ClearDepthStencil(DescriptorHandle, u32),
}

/// The CPU-side record of a command allocator: whether a command list drawing
/// from it may still be executing on the GPU and, if so, the fence value whose
/// completion will release it.
#[derive(Clone, Copy, Debug, PartialEq, Eq, Structural)]
pub struct AllocatorState {
    /// Commands backed by this allocator may still be executing.
    pub in_flight: bool,
    /// The fence value that releases the allocator, meaningful while
    /// `in_flight` holds.
    pub pending_value: u64,
}

impl AllocatorState {
    /// A freshly created allocator: nothing recorded from it has been
    /// submitted.
    pub fn new() -> (r: AllocatorState)
        ensures
            !r.in_flight,
            r.pending_value == 0,
    {
        AllocatorState { in_flight: false, pending_value: 0 }
    }
}

/// The mathematical content of a [`CommandRecorder`]: whether it is open and
/// what it has recorded since its last reset.
pub struct RecorderView {
    pub open: bool,
    pub commands: Seq<Command>,
    pub pipeline: Option<PipelineHandle>,
}

/// A command recorder: **Closed** (initial) → `reset` → **Open** → `close` →
/// **Closed**.  Recording calls are valid only while Open; `close` is required
/// before the recorded commands may be submitted; every operation invoked in
/// the wrong state fails with a state violation and leaves the recorder
/// unchanged, so recorded state is never silently corrupted.
pub struct CommandRecorder {
    open: bool,
    commands: Vec<Command>,
    pipeline: Option<PipelineHandle>,
}

impl View for CommandRecorder {
    type V = RecorderView;

    closed spec fn view(&self) -> RecorderView {
        RecorderView { open: self.open, commands: self.commands@, pipeline: self.pipeline }
    }
}

impl CommandRecorder {
    /// A fresh recorder: closed, with nothing recorded.
    pub fn new() -> (r: CommandRecorder)
        ensures
            !r@.open,
            r@.commands == Seq::<Command>::empty(),
            r@.pipeline is None,
    {
        let r = CommandRecorder { open: false, commands: Vec::new(), pipeline: None };
        proof {
            assert(r@.commands =~= Seq::<Command>::empty());
        }
        r
    }

    /// Whether the recorder is open for recording.
    pub fn is_open(&self) -> (r: bool)
        ensures
            r == self@.open,
    {
        self.open
    }

    /// The commands recorded since the last reset.
    pub fn commands(&self) -> (r: &Vec<Command>)
        ensures
            r@ == self@.commands,
    {
        &self.commands
    }

    /// The pipeline state bound at the last reset, if any.
    pub fn pipeline(&self) -> (r: Option<PipelineHandle>)
        ensures
            r == self@.pipeline,
    {
        self.pipeline
    }

    /// Opens the recorder for a new frame, clearing everything recorded since
    /// the last reset and binding `pipeline_state` (none, when the pipeline is
    /// bound later by per-object draw code).  Fails with a state violation,
    /// changing nothing, if the recorder is already open — exactly one `close`
    /// matches each `reset` — or if commands drawing from `allocator` may
    /// still be executing on the GPU: the caller must first have waited for
    /// the fence value that releases it.
    pub fn reset(&mut self, allocator: &AllocatorState, pipeline_state: Option<PipelineHandle>) -> (r:
        Result<(), Dx12Error>)
        ensures
            (!old(self)@.open && !allocator.in_flight) ==> {
                &&& r is Ok
                &&& final(self)@.open
                &&& final(self)@.commands == Seq::<Command>::empty()
                &&& final(self)@.pipeline == pipeline_state
            },
            (old(self)@.open || allocator.in_flight) ==> {
                &&& r is Err
                &&& r->Err_0.kind_spec() == ErrorKind::StateViolation
                &&& final(self)@ == old(self)@
            },
    {
        if self.open {
            return Err(Dx12Error::state_violation("reset while the recorder is already open"));
        }
        if allocator.in_flight {
            return Err(
                Dx12Error::state_violation(
                    "reset while the allocator's commands may still be executing",
                ),
            );
        }
        self.open = true;
        self.commands.clear();
        self.pipeline = pipeline_state;
        Ok(())
    }

    /// Appends one command if the recorder is open; fails with a state
    /// violation, changing nothing, if it is closed.
    fn record(&mut self, command: Command) -> (r: Result<(), Dx12Error>)
        ensures
            old(self)@.open ==> {
                &&& r is Ok
                &&& final(self)@.open
                &&& final(self)@.commands == old(self)@.commands.push(command)
                &&& final(self)@.pipeline == old(self)@.pipeline
            },
            !old(self)@.open ==> {
                &&& r is Err
                &&& r->Err_0.kind_spec() == ErrorKind::StateViolation
                &&& final(self)@ == old(self)@
            },
    {
        if !self.open {
            return Err(Dx12Error::state_violation("recording while the recorder is closed"));
        }
        self.commands.push(command);
        Ok(())
    }

    /// Records the scissor rectangle derived from `viewport` — its full
    /// extent — followed by the viewport itself.  Fails with a state
    /// violation, changing nothing, if the recorder is closed.
    pub fn set_viewport_and_scissor(&mut self, viewport: Viewport) -> (r: Result<(), Dx12Error>)
        ensures
            old(self)@.open ==> {
                &&& r is Ok
                &&& final(self)@.open
                &&& final(self)@.commands == old(self)@.commands.push(
                    Command::SetScissorRect(scissor_for(viewport)),
                ).push(Command::SetViewport(viewport))
                &&& final(self)@.pipeline == old(self)@.pipeline
            },
            !old(self)@.open ==> {
                &&& r is Err
                &&& r->Err_0.kind_spec() == ErrorKind::StateViolation
                &&& final(self)@ == old(self)@
            },
    {
        let scissor = ScissorRect {
            left: 0,
            top: 0,
            right: viewport.width,
            bottom: viewport.height,
        };
        match self.record(Command::SetScissorRect(scissor)) {
            Ok(()) => {},
            Err(e) => {
                return Err(e);
            },
        }
        self.record(Command::SetViewport(viewport))
    }

    /// Records a resource state transition.  Fails with a state violation,
    /// changing nothing, if the recorder is closed.
    pub fn insert_barrier(&mut self, barrier: BarrierDesc) -> (r: Result<(), Dx12Error>)
        ensures
            old(self)@.open ==> {
                &&& r is Ok
                &&& final(self)@.open
                &&& final(self)@.commands == old(self)@.commands.push(Command::Barrier(barrier))
                &&& final(self)@.pipeline == old(self)@.pipeline
            },
            !old(self)@.open ==> {
                &&& r is Err
                &&& r->Err_0.kind_spec() == ErrorKind::StateViolation
                &&& final(self)@ == old(self)@
            },
    {
        self.record(Command::Barrier(barrier))
    }

    /// Records the binding of a render-target view and a depth-stencil view.
    /// Fails with a state violation, changing nothing, if the recorder is
    /// closed.
    pub fn bind_render_target(&mut self, rtv_handle: DescriptorHandle, dsv_handle: DescriptorHandle)
        -> (r: Result<(), Dx12Error>)
        ensures
            old(self)@.open ==> {
                &&& r is Ok
                &&& final(self)@.open
                &&& final(self)@.commands == old(self)@.commands.push(
                    Command::SetRenderTarget(rtv_handle, dsv_handle),
                )
                &&& final(self)@.pipeline == old(self)@.pipeline
            },
            !old(self)@.open ==> {
                &&& r is Err
                &&& r->Err_0.kind_spec() == ErrorKind::StateViolation
                &&& final(self)@ == old(self)@
            },
    {
        self.record(Command::SetRenderTarget(rtv_handle, dsv_handle))
    }

    /// Records a clear of the render target behind `rtv_handle` with
    /// `clear_color`.  Fails with a state violation, changing nothing, if the
    /// recorder is closed.
    pub fn clear_render_target(&mut self, rtv_handle: DescriptorHandle, clear_color: ColorRgba) -> (r:
        Result<(), Dx12Error>)
        ensures
            old(self)@.open ==> {
                &&& r is Ok
                &&& final(self)@.open
                &&& final(self)@.commands == old(self)@.commands.push(
                    Command::ClearRenderTarget(rtv_handle, clear_color),
                )
                &&& final(self)@.pipeline == old(self)@.pipeline
            },
            !old(self)@.open ==> {
                &&& r is Err
                &&& r->Err_0.kind_spec() == ErrorKind::StateViolation
                &&& final(self)@ == old(self)@
            },
    {
        self.record(Command::ClearRenderTarget(rtv_handle, clear_color))
    }

    /// Records a clear of the depth buffer behind `dsv_handle` with the depth
    /// value whose 32-bit encoding is `depth_value`.  Fails with a state
    /// violation, changing nothing, if the recorder is closed.
    pub fn clear_depth_stencil(&mut self, dsv_handle: DescriptorHandle, depth_value: u32) -> (r:
        Result<(), Dx12Error>)
        ensures
            old(self)@.open ==> {
                &&& r is Ok
                &&& final(self)@.open
                &&& final(self)@.commands == old(self)@.commands.push(
                    Command::ClearDepthStencil(dsv_handle, depth_value),
                )
                &&& final(self)@.pipeline == old(self)@.pipeline
            },
            !old(self)@.open ==> {
                &&& r is Err
                &&& r->Err_0.kind_spec() == ErrorKind::StateViolation
                &&& final(self)@ == old(self)@
            },
    {
        self.record(Command::ClearDepthStencil(dsv_handle, depth_value))
    }

    /// Closes the recorder, making the recorded commands submittable.  Fails
    /// with a state violation, changing nothing, if the recorder is not open:
    /// a close needs a matching reset, and closing twice is an error.
    pub fn close(&mut self) -> (r: Result<(), Dx12Error>)
        ensures
            old(self)@.open ==> {
                &&& r is Ok
                &&& !final(self)@.open
                &&& final(self)@.commands == old(self)@.commands
                &&& final(self)@.pipeline == old(self)@.pipeline
            },
            !old(self)@.open ==> {
                &&& r is Err
                &&& r->Err_0.kind_spec() == ErrorKind::StateViolation
                &&& final(self)@ == old(self)@
            },
    {
        if !self.open {
            return Err(Dx12Error::state_violation("close without a matching reset"));
        }
        self.open = false;
        Ok(())
    }
}

} // verus!

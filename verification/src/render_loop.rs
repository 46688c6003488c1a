use vstd::prelude::*;
use vstd::pervasive::VecAdditionalExecFns;
use crate::barrier::{apply_barrier, transition, BarrierDesc, ResourceState};
use crate::dx12error::{Dx12Error, ErrorKind};
use crate::fence::{Fence, WaitDecision, WaitOutcome};
use crate::frame_targets::{dsv_handle_for, rtv_handle_for, FrameTargets, FrameTargetsView};
use crate::recorder::{
    scissor_for, AllocatorState, ColorRgba, Command, CommandRecorder, RecorderView, Viewport,
};

verus! {

/// Where the controller stands in a frame's cycle.
#[derive(Clone, Copy, Debug, PartialEq, Eq, Structural)]
pub enum FramePhase {
    /// Between frames: every submitted frame's GPU work is known complete.
    Idle,
    /// Between `begin_frame` and `end_frame`: commands are being recorded.
    Recording,
    /// After `end_frame`: the frame was handed over for execute, present and
    /// signal, and the fence's completed value has not been reported back yet.
    Submitted,
    /// The reported completed value was behind the frame's fence value: the
    /// CPU must block on the OS wait handle and report the outcome.
    Waiting,
    /// A present or synchronization failure ended the session; no recovery is
    /// attempted.
    Failed,
}

/// What the embedding program must do with a finished frame, in order:
/// execute the commands on the queue, present with the given sync interval,
/// and signal the fence on the queue with the given value.
#[derive(Debug)]
pub struct FrameSubmission {
    /// The closed command list, in recording order.
    pub commands: Vec<Command>,
    /// Present with this sync interval (1: vsync-locked).
    pub sync_interval: u32,
    /// Signal the fence with this value after executing the commands.
    pub signal_value: u64,
}

/// The mathematical content of a [`RenderLoop`].
pub struct RenderLoopView {
    pub targets: FrameTargetsView,
    pub recorder: RecorderView,
    pub fence_value: u64,
    pub allocator: AllocatorState,
    pub viewport: Viewport,
    pub depth_clear: Option<u32>,
    pub resource_states: Seq<ResourceState>,
    pub frame_index: u32,
    pub phase: FramePhase,
}

/// The commands `begin_frame` records for back buffer `bbi`, in order: the
/// scissor rectangle derived from the viewport, the viewport, the transition
/// of the frame's render target from present to render-target state, the
/// binding of the frame's render-target view with the depth-stencil view, the
/// color clear and, when a depth clear value is configured, the depth clear.
pub open spec fn begin_frame_commands(
    targets: FrameTargetsView,
    viewport: Viewport,
    bbi: int,
    clear_color: ColorRgba,
    depth_clear: Option<u32>,
) -> Seq<Command> {
    let rtv = rtv_handle_for(targets, bbi);
    let dsv = dsv_handle_for(targets);
    let base = seq![
        Command::SetScissorRect(scissor_for(viewport)),
        Command::SetViewport(viewport),
        Command::Barrier(
            BarrierDesc {
                resource: targets.resources[bbi],
                state_before: ResourceState::Present,
                state_after: ResourceState::RenderTarget,
            },
        ),
        Command::SetRenderTarget(rtv, dsv),
        Command::ClearRenderTarget(rtv, clear_color),
    ];
    match depth_clear {
        Some(d) => base.push(Command::ClearDepthStencil(dsv, d)),
        None => base,
    }
}

/// The barrier `end_frame` records: the frame's render target goes back from
/// render-target state to present state.
pub open spec fn end_frame_barrier(targets: FrameTargetsView, bbi: int) -> Command {
    Command::Barrier(
        BarrierDesc {
            resource: targets.resources[bbi],
            state_before: ResourceState::RenderTarget,
            state_after: ResourceState::Present,
        },
    )
}

/// Drives the strictly ordered per-frame protocol — acquire frame, reset,
/// record, transition, close, submit, present, wait — over a command
/// recorder, a fence and the frame targets.  It is the sole authority for
/// each back buffer's resource state, and it never resets the allocator
/// before the fence value of the frame that used it is known complete.
pub struct RenderLoop {
    targets: FrameTargets,
    recorder: CommandRecorder,
    fence: Fence,
    allocator: AllocatorState,
    viewport: Viewport,
    depth_clear: Option<u32>,
    resource_states: Vec<ResourceState>,
    frame_index: u32,
    phase: FramePhase,
}

impl View for RenderLoop {
    type V = RenderLoopView;

    closed spec fn view(&self) -> RenderLoopView {
        RenderLoopView {
            targets: self.targets@,
            recorder: self.recorder@,
            fence_value: self.fence.value_spec(),
            allocator: self.allocator,
            viewport: self.viewport,
            depth_clear: self.depth_clear,
            resource_states: self.resource_states@,
            frame_index: self.frame_index,
            phase: self.phase,
        }
    }
}

impl RenderLoop {
    #[verifier::type_invariant]
    spec fn inv(self) -> bool {
        &&& self@.resource_states.len() == self@.targets.resources.len()
        &&& self@.phase is Recording ==> {
            &&& self@.recorder.open
            &&& self@.frame_index < self@.resource_states.len()
            &&& self@.resource_states[self@.frame_index as int] is RenderTarget
            &&& forall|j: int|
                0 <= j < self@.resource_states.len() && j != self@.frame_index as int
                    ==> self@.resource_states[j] is Present
        }
        &&& !(self@.phase is Recording) ==> forall|j: int|
            0 <= j < self@.resource_states.len() ==> self@.resource_states[j] is Present
        &&& self@.phase is Idle ==> !self@.recorder.open && !self@.allocator.in_flight
        &&& (self@.phase is Submitted || self@.phase is Waiting) ==> !self@.recorder.open
    }

    /// A controller over `targets`, drawing into `viewport`, ready to begin
    /// its first frame.  Depth clearing is an explicitly configured step:
    /// frames record a depth clear exactly when `depth_clear` carries the
    /// 32-bit encoding of the clear value.
    pub fn new(targets: FrameTargets, viewport: Viewport, depth_clear: Option<u32>) -> (r:
        RenderLoop)
        ensures
            r@.targets == targets@,
            r@.viewport == viewport,
            r@.depth_clear == depth_clear,
            r@.phase is Idle,
            r@.fence_value == 1,
            !r@.allocator.in_flight,
            !r@.recorder.open,
            r@.recorder.commands == Seq::<Command>::empty(),
            r@.frame_index == 0,
            r@.resource_states.len() == targets@.resources.len(),
            forall|j: int|
                0 <= j < r@.resource_states.len() ==> r@.resource_states[j] is Present,
    {
        let count = targets.frame_buffer_count();
        let mut resource_states: Vec<ResourceState> = Vec::new();
        let mut i: usize = 0;
        while i < count
            invariant
                i <= count,
                resource_states@.len() == i,
                forall|j: int| 0 <= j < i ==> resource_states@[j] is Present,
            decreases count - i,
        {
            resource_states.push(ResourceState::Present);
            i = i + 1;
        }
        RenderLoop {
            targets,
            recorder: CommandRecorder::new(),
            fence: Fence::new(),
            allocator: AllocatorState::new(),
            viewport,
            depth_clear,
            resource_states,
            frame_index: 0,
            phase: FramePhase::Idle,
        }
    }

    /// A controller with no frame buffers, used to stand in while the real
    /// state is taken apart.
    fn vacant() -> (r: RenderLoop)
    {
        RenderLoop {
            targets: FrameTargets::empty(),
            recorder: CommandRecorder::new(),
            fence: Fence::new(),
            allocator: AllocatorState::new(),
            viewport: Viewport { width: 0, height: 0 },
            depth_clear: None,
            resource_states: Vec::new(),
            frame_index: 0,
            phase: FramePhase::Idle,
        }
    }

    /// Where the controller stands in the frame cycle.
    pub fn phase(&self) -> (p: FramePhase)
        ensures
            p == self@.phase,
    {
        self.phase
    }

    /// The back-buffer index of the frame being recorded or awaited.
    pub fn frame_index(&self) -> (i: u32)
        ensures
            i == self@.frame_index,
    {
        self.frame_index
    }

    /// The next value the fence will hand out.
    pub fn fence_value(&self) -> (v: u64)
        ensures
            v == self@.fence_value,
    {
        self.fence.get_value()
    }

    /// The CPU-side record of the command allocator.
    pub fn allocator(&self) -> (a: AllocatorState)
        ensures
            a == self@.allocator,
    {
        self.allocator
    }

    /// The commands recorded since the last reset.
    pub fn recorded_commands(&self) -> (r: &Vec<Command>)
        ensures
            r@ == self@.recorder.commands,
    {
        self.recorder.commands()
    }

    /// Begins the frame drawn into back buffer `back_buffer_index` (queried
    /// fresh from the swap chain by the caller): resets the recorder, records
    /// the viewport and scissor, transitions the frame's render target from
    /// present to render-target state, binds the frame's targets and records
    /// the clears — exactly the commands of [`begin_frame_commands`].
    ///
    /// Fails with a state violation, changing nothing, if a frame is already
    /// in progress — in particular while the previous frame's GPU work is not
    /// known complete, so the command allocator is never reused while the GPU
    /// may still read it — or if the index is out of range.
    pub fn begin_frame(&mut self, back_buffer_index: u32, clear_color: ColorRgba) -> (r: Result<
        (),
        Dx12Error,
    >)
        ensures
            (old(self)@.phase is Idle && back_buffer_index < old(self)@.targets.resources.len())
                ==> {
                &&& r is Ok
                &&& final(self)@.phase is Recording
                &&& final(self)@.frame_index == back_buffer_index
                &&& final(self)@.recorder.open
                &&& final(self)@.recorder.commands == begin_frame_commands(
                    old(self)@.targets,
                    old(self)@.viewport,
                    back_buffer_index as int,
                    clear_color,
                    old(self)@.depth_clear,
                )
                &&& final(self)@.recorder.pipeline is None
                &&& final(self)@.resource_states == old(self)@.resource_states.update(
                    back_buffer_index as int,
                    ResourceState::RenderTarget,
                )
                &&& final(self)@.targets == old(self)@.targets
                &&& final(self)@.fence_value == old(self)@.fence_value
                &&& final(self)@.allocator == old(self)@.allocator
                &&& final(self)@.viewport == old(self)@.viewport
                &&& final(self)@.depth_clear == old(self)@.depth_clear
            },
            !(old(self)@.phase is Idle && back_buffer_index < old(self)@.targets.resources.len())
                ==> {
                &&& r is Err
                &&& r->Err_0.kind_spec() == ErrorKind::StateViolation
                &&& final(self)@ == old(self)@
            },
    {
        proof {
            use_type_invariant(&*self);
        }
        match self.phase {
            FramePhase::Idle => {},
            _ => {
                return Err(
                    Dx12Error::state_violation(
                        "begin_frame while the previous frame is not finished",
                    ),
                );
            },
        }
        if back_buffer_index as usize >= self.targets.frame_buffer_count() {
            return Err(Dx12Error::state_violation("back-buffer index is out of range"));
        }
        let ghost pre = self@;

        let mut work = Self::vacant();
        core::mem::swap(&mut work, self);
        let RenderLoop {
            targets,
            mut recorder,
            fence,
            allocator,
            viewport,
            depth_clear,
            mut resource_states,
            frame_index: _,
            phase: _,
        } = work;
        let idx = back_buffer_index as usize;

        match recorder.reset(&allocator, None) {
            Ok(()) => {},
            Err(e) => {
                return Err(e);
            },
        }
        match recorder.set_viewport_and_scissor(viewport) {
            Ok(()) => {},
            Err(e) => {
                return Err(e);
            },
        }
        let resource = match targets.render_target(idx) {
            Ok(res) => res,
            Err(e) => {
                return Err(e);
            },
        };
        let barrier = transition(resource, ResourceState::Present, ResourceState::RenderTarget);
        match recorder.insert_barrier(barrier) {
            Ok(()) => {},
            Err(e) => {
                return Err(e);
            },
        }
        let current = resource_states[idx];
        let next = apply_barrier(current, &barrier);
        resource_states.set(idx, next);
        let rtv = match targets.rtv_handle(idx) {
            Ok(h) => h,
            Err(e) => {
                return Err(e);
            },
        };
        let dsv = targets.dsv_handle();
        match recorder.bind_render_target(rtv, dsv) {
            Ok(()) => {},
            Err(e) => {
                return Err(e);
            },
        }
        match recorder.clear_render_target(rtv, clear_color) {
            Ok(()) => {},
            Err(e) => {
                return Err(e);
            },
        }
        match depth_clear {
            Some(depth_value) => {
                match recorder.clear_depth_stencil(dsv, depth_value) {
                    Ok(()) => {},
                    Err(e) => {
                        return Err(e);
                    },
                }
            },
            None => {},
        }
        proof {
            assert(recorder@.commands =~= begin_frame_commands(
                pre.targets,
                pre.viewport,
                back_buffer_index as int,
                clear_color,
                pre.depth_clear,
            ));
            assert(resource_states@ =~= pre.resource_states.update(
                back_buffer_index as int,
                ResourceState::RenderTarget,
            ));
        }
        *self = RenderLoop {
            targets,
            recorder,
            fence,
            allocator,
            viewport,
            depth_clear,
            resource_states,
            frame_index: back_buffer_index,
            phase: FramePhase::Recording,
        };
        Ok(())
    }

    /// Ends the frame being recorded: transitions the frame's render target
    /// back from render-target to present state, closes the recorder, and
    /// hands over what the embedding program must now do — execute the closed
    /// command list, present with sync interval 1, and signal the fence with
    /// the returned value.  The fence counter advances, and the allocator is
    /// marked in flight until that value is known complete.
    ///
    /// Fails with a state violation, changing nothing, if no frame is being
    /// recorded; fails with a synchronization failure, changing nothing, if
    /// the fence counter is exhausted.
    pub fn end_frame(&mut self) -> (r: Result<FrameSubmission, Dx12Error>)
        ensures
            (old(self)@.phase is Recording && old(self)@.fence_value < u64::MAX) ==> {
                &&& r is Ok
                &&& r->Ok_0.commands@ == old(self)@.recorder.commands.push(
                    end_frame_barrier(old(self)@.targets, old(self)@.frame_index as int),
                )
                &&& r->Ok_0.sync_interval == 1
                &&& r->Ok_0.signal_value == old(self)@.fence_value
                &&& final(self)@.phase is Submitted
                &&& !final(self)@.recorder.open
                &&& final(self)@.recorder.commands == r->Ok_0.commands@
                &&& final(self)@.recorder.pipeline == old(self)@.recorder.pipeline
                &&& final(self)@.fence_value == old(self)@.fence_value + 1
                &&& final(self)@.allocator.in_flight
                &&& final(self)@.allocator.pending_value == old(self)@.fence_value
                &&& final(self)@.resource_states == old(self)@.resource_states.update(
                    old(self)@.frame_index as int,
                    ResourceState::Present,
                )
                &&& final(self)@.targets == old(self)@.targets
                &&& final(self)@.viewport == old(self)@.viewport
                &&& final(self)@.depth_clear == old(self)@.depth_clear
                &&& final(self)@.frame_index == old(self)@.frame_index
            },
            !(old(self)@.phase is Recording) ==> {
                &&& r is Err
                &&& r->Err_0.kind_spec() == ErrorKind::StateViolation
                &&& final(self)@ == old(self)@
            },
            (old(self)@.phase is Recording && old(self)@.fence_value == u64::MAX) ==> {
                &&& r is Err
                &&& r->Err_0.kind_spec() == ErrorKind::SyncFailure
                &&& final(self)@ == old(self)@
            },
    {
        proof {
            use_type_invariant(&*self);
        }
        match self.phase {
            FramePhase::Recording => {},
            _ => {
                return Err(Dx12Error::state_violation("end_frame without a frame being recorded"));
            },
        }
        if self.fence.get_value() == u64::MAX {
            return Err(Dx12Error::sync_failure("fence value counter is exhausted"));
        }
        let ghost pre = self@;

        let mut work = Self::vacant();
        core::mem::swap(&mut work, self);
        let RenderLoop {
            targets,
            mut recorder,
            mut fence,
            allocator: _,
            viewport,
            depth_clear,
            mut resource_states,
            frame_index,
            phase: _,
        } = work;
        let idx = frame_index as usize;

        let resource = match targets.render_target(idx) {
            Ok(res) => res,
            Err(e) => {
                return Err(e);
            },
        };
        let barrier = transition(resource, ResourceState::RenderTarget, ResourceState::Present);
        match recorder.insert_barrier(barrier) {
            Ok(()) => {},
            Err(e) => {
                return Err(e);
            },
        }
        let current = resource_states[idx];
        let next = apply_barrier(current, &barrier);
        resource_states.set(idx, next);
        match recorder.close() {
            Ok(()) => {},
            Err(e) => {
                return Err(e);
            },
        }
        let commands = copy_commands(recorder.commands());
        let signal_value = match fence.next_value() {
            Ok(v) => v,
            Err(e) => {
                return Err(e);
            },
        };
        proof {
            assert(resource_states@ =~= pre.resource_states.update(
                pre.frame_index as int,
                ResourceState::Present,
            ));
        }
        *self = RenderLoop {
            targets,
            recorder,
            fence,
            allocator: AllocatorState { in_flight: true, pending_value: signal_value },
            viewport,
            depth_clear,
            resource_states,
            frame_index,
            phase: FramePhase::Submitted,
        };
        Ok(FrameSubmission { commands, sync_interval: 1, signal_value })
    }

    /// Completes the wait-for-GPU step for the submitted frame, given what
    /// the embedding program observed: whether the present succeeded, and the
    /// completed value the fence reported after the signal was enqueued.
    ///
    /// When the completed value has already reached the frame's fence value
    /// the frame is done — the allocator is released and the next frame may
    /// begin.  Otherwise the caller must block on the OS wait handle and hand
    /// the outcome to [`Self::report_wait`].  A failed present is fatal to
    /// the session.  Fails with a state violation, changing nothing, if no
    /// frame has been submitted.
    pub fn finish_frame(&mut self, present_ok: bool, completed_value: u64) -> (r: Result<
        WaitDecision,
        Dx12Error,
    >)
        ensures
            !(old(self)@.phase is Submitted) ==> {
                &&& r is Err
                &&& r->Err_0.kind_spec() == ErrorKind::StateViolation
                &&& final(self)@ == old(self)@
            },
            (old(self)@.phase is Submitted && !present_ok) ==> {
                &&& r is Err
                &&& r->Err_0.kind_spec() == ErrorKind::PresentFailure
                &&& final(self)@ == (RenderLoopView { phase: FramePhase::Failed, ..old(self)@ })
            },
            (old(self)@.phase is Submitted && present_ok) ==> {
                &&& r is Ok
                &&& r->Ok_0 == (if completed_value >= old(self)@.allocator.pending_value {
                    WaitDecision::Ready
                } else {
                    WaitDecision::MustWait(old(self)@.allocator.pending_value)
                })
                &&& completed_value >= old(self)@.allocator.pending_value ==> final(self)@ == (
                RenderLoopView {
                    phase: FramePhase::Idle,
                    allocator: AllocatorState {
                        in_flight: false,
                        pending_value: old(self)@.allocator.pending_value,
                    },
                    ..old(self)@
                })
                &&& completed_value < old(self)@.allocator.pending_value ==> final(self)@ == (
                RenderLoopView { phase: FramePhase::Waiting, ..old(self)@ })
            },
    {
        proof {
            use_type_invariant(&*self);
        }
        match self.phase {
            FramePhase::Submitted => {},
            _ => {
                return Err(Dx12Error::state_violation("finish_frame without a submitted frame"));
            },
        }
        if !present_ok {
            self.phase = FramePhase::Failed;
            return Err(Dx12Error::present_failure("presenting the frame failed"));
        }
        let decision = Fence::wait_if_not_complete(completed_value, self.allocator.pending_value);
        match decision {
            WaitDecision::Ready => {
                self.allocator.in_flight = false;
                self.phase = FramePhase::Idle;
                Ok(WaitDecision::Ready)
            },
            WaitDecision::MustWait(value) => {
                self.phase = FramePhase::Waiting;
                Ok(WaitDecision::MustWait(value))
            },
        }
    }

    /// Completes a frame whose wait-for-GPU step had to block, given what the
    /// OS reported for the wait.  A satisfied wait finishes the frame and
    /// releases the allocator.  Anything else — a failed wait or a spurious
    /// wake — is a synchronization failure carrying the OS code, fatal to the
    /// session.  Fails with a state violation, changing nothing, if no wait
    /// is pending.
    pub fn report_wait(&mut self, outcome: WaitOutcome) -> (r: Result<(), Dx12Error>)
        ensures
            !(old(self)@.phase is Waiting) ==> {
                &&& r is Err
                &&& r->Err_0.kind_spec() == ErrorKind::StateViolation
                &&& final(self)@ == old(self)@
            },
            (old(self)@.phase is Waiting && outcome is Satisfied) ==> {
                &&& r is Ok
                &&& final(self)@ == (RenderLoopView {
                    phase: FramePhase::Idle,
                    allocator: AllocatorState {
                        in_flight: false,
                        pending_value: old(self)@.allocator.pending_value,
                    },
                    ..old(self)@
                })
            },
            (old(self)@.phase is Waiting && !(outcome is Satisfied)) ==> {
                &&& r is Err
                &&& r->Err_0.kind_spec() == ErrorKind::SyncFailure
                &&& (outcome matches WaitOutcome::Failed(code) ==> r->Err_0.code_spec() == Some(
                    code,
                ))
                &&& (outcome matches WaitOutcome::Unexpected(code) ==> r->Err_0.code_spec()
                    == Some(code))
                &&& final(self)@ == (RenderLoopView { phase: FramePhase::Failed, ..old(self)@ })
            },
    {
        proof {
            use_type_invariant(&*self);
        }
        match self.phase {
            FramePhase::Waiting => {},
            _ => {
                return Err(Dx12Error::state_violation("report_wait without a pending wait"));
            },
        }
        match Fence::classify_wait_outcome(outcome) {
            Ok(()) => {
                self.allocator.in_flight = false;
                self.phase = FramePhase::Idle;
                Ok(())
            },
            Err(e) => {
                self.phase = FramePhase::Failed;
                Err(e)
            },
        }
    }
}

/// A copy of `src`, element for element.
fn copy_commands(src: &Vec<Command>) -> (r: Vec<Command>)
    ensures
        r@ == src@,
{
    let mut out: Vec<Command> = Vec::new();
    let mut i: usize = 0;
    while i < src.len()
        invariant
            i <= src@.len(),
            out@ == src@.subrange(0, i as int),
        decreases src@.len() - i,
    {
        out.push(src[i]);
        proof {
            assert(src@.subrange(0, i as int).push(src@[i as int]) =~= src@.subrange(
                0,
                i + 1 as int,
            ));
        }
        i = i + 1;
    }
    proof {
        assert(out@ =~= src@);
    }
    out
}

} // verus!

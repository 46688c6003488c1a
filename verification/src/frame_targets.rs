use vstd::prelude::*;
use vstd::arithmetic::mul::lemma_mul_inequality;
use crate::barrier::ResourceId;
use crate::dx12error::{Dx12Error, ErrorKind};

verus! {

/// A CPU descriptor handle: the heap's base address, a slot index, and the
/// per-descriptor increment size queried from the device for the heap's type.
/// The offset is computed internally, and every handle in existence addresses
/// a slot whose offset fits the address space.
#[derive(Clone, Copy, Debug, PartialEq, Eq, Structural)]
pub struct DescriptorHandle {
    base: u64,
    index: u32,
    stride: u32,
}

impl DescriptorHandle {
    /// The heap base address this handle points into.
    pub closed spec fn base_spec(&self) -> u64 {
        self.base
    }

    /// The slot index within the heap.
    pub closed spec fn index_spec(&self) -> u32 {
        self.index
    }

    /// The per-descriptor increment size of the heap.
    pub closed spec fn stride_spec(&self) -> u32 {
        self.stride
    }

    /// The address this handle resolves to.
    pub open spec fn offset_spec(&self) -> int {
        self.base_spec() + self.index_spec() * self.stride_spec()
    }

    #[verifier::type_invariant]
    spec fn inv(self) -> bool {
        self.offset_spec() <= u64::MAX
    }

    /// Builds a handle for slot `index` of the heap starting at `base` whose
    /// descriptors are `stride` bytes apart.  Fails exactly when the slot's
    /// address does not fit the address space.
    pub fn new(base: u64, index: u32, stride: u32) -> (r: Result<DescriptorHandle, Dx12Error>)
        ensures
            r is Ok <==> base + index * stride <= u64::MAX,
            r is Ok ==> {
                &&& r->Ok_0.base_spec() == base
                &&& r->Ok_0.index_spec() == index
                &&& r->Ok_0.stride_spec() == stride
            },
            r is Err ==> r->Err_0.kind_spec() == ErrorKind::StateViolation,
    {
        proof {
            assert((index as int) * (stride as int) <= 0xffff_ffff * 0xffff_ffff)
                by (nonlinear_arith)
                requires
                    index <= 0xffff_ffff,
                    stride <= 0xffff_ffff,
            ;
        }
        let slot: u64 = (index as u64) * (stride as u64);
        if base > u64::MAX - slot {
            Err(Dx12Error::state_violation("descriptor slot address is out of range"))
        } else {
            Ok(DescriptorHandle { base, index, stride })
        }
    }

    /// Builds a handle whose slot address is already known to fit.
    pub(crate) fn from_parts(base: u64, index: u32, stride: u32) -> (r: DescriptorHandle)
        requires
            base + index * stride <= u64::MAX,
        ensures
            r.base_spec() == base,
            r.index_spec() == index,
            r.stride_spec() == stride,
    {
        DescriptorHandle { base, index, stride }
    }

    /// The heap base address this handle points into.
    pub fn base(&self) -> (r: u64)
        ensures
            r == self.base_spec(),
    {
        self.base
    }

    /// The slot index within the heap.
    pub fn index(&self) -> (r: u32)
        ensures
            r == self.index_spec(),
    {
        self.index
    }

    /// The per-descriptor increment size of the heap.
    pub fn stride(&self) -> (r: u32)
        ensures
            r == self.stride_spec(),
    {
        self.stride
    }

    /// The address this handle resolves to: `base + index * stride`.
    pub fn offset(&self) -> (r: u64)
        ensures
            r == self.offset_spec(),
    {
        proof {
            use_type_invariant(self);
        }
        self.base + (self.index as u64) * (self.stride as u64)
    }
}

/// The mathematical content of a [`FrameTargets`]: the RTV heap's start and
/// increment, the DSV heap's start, and the per-frame render-target resources.
pub struct FrameTargetsView {
    pub rtv_heap_start: u64,
    pub rtv_increment: u32,
    pub dsv_heap_start: u64,
    pub resources: Seq<ResourceId>,
}

impl FrameTargetsView {
    /// How many frame buffers this target set addresses.
    pub open spec fn frame_buffer_count(self) -> int {
        self.resources.len() as int
    }

    /// Every slot of the RTV heap fits the address space.
    pub open spec fn wf(self) -> bool {
        &&& self.resources.len() <= u32::MAX
        &&& self.rtv_heap_start + self.resources.len() * self.rtv_increment <= u64::MAX
    }

    /// The address of frame `i`'s render-target view descriptor.
    pub open spec fn rtv_offset(self, i: int) -> int {
        self.rtv_heap_start + i * self.rtv_increment
    }
}

/// The render-target view descriptor handle for frame `i` of target set `t`:
/// slot `i` of the RTV heap, `i` descriptor increments past the heap's start.
pub closed spec fn rtv_handle_for(t: FrameTargetsView, i: int) -> DescriptorHandle {
    DescriptorHandle { base: t.rtv_heap_start, index: i as u32, stride: t.rtv_increment }
}

/// The depth-stencil view descriptor handle of target set `t`: the start of
/// the DSV heap.
pub closed spec fn dsv_handle_for(t: FrameTargetsView) -> DescriptorHandle {
    DescriptorHandle { base: t.dsv_heap_start, index: 0u32, stride: 0u32 }
}

/// Maps a frame index to its render-target view descriptor handle, exposes
/// the fixed depth-stencil view handle, and holds the render-target resource
/// for each frame, indexed identically.
#[derive(Debug)]
pub struct FrameTargets {
    rtv_heap_start: u64,
    rtv_increment: u32,
    dsv_heap_start: u64,
    resources: Vec<ResourceId>,
}

impl View for FrameTargets {
    type V = FrameTargetsView;

    closed spec fn view(&self) -> FrameTargetsView {
        FrameTargetsView {
            rtv_heap_start: self.rtv_heap_start,
            rtv_increment: self.rtv_increment,
            dsv_heap_start: self.dsv_heap_start,
            resources: self.resources@,
        }
    }
}

impl FrameTargets {
    #[verifier::type_invariant]
    spec fn inv(self) -> bool {
        self@.wf()
    }

    /// Builds the target set for `resources.len()` frame buffers.  Fails
    /// exactly when some RTV slot's address would not fit the address space.
    pub fn new(
        rtv_heap_start: u64,
        rtv_increment: u32,
        dsv_heap_start: u64,
        resources: Vec<ResourceId>,
    ) -> (r: Result<FrameTargets, Dx12Error>)
        ensures
            r is Ok <==> (resources@.len() <= u32::MAX && rtv_heap_start + resources@.len()
                * rtv_increment <= u64::MAX),
            r is Ok ==> r->Ok_0@ == (FrameTargetsView {
                rtv_heap_start,
                rtv_increment,
                dsv_heap_start,
                resources: resources@,
            }),
            r is Err ==> r->Err_0.kind_spec() == ErrorKind::ResourceCreationFailure,
    {
        if resources.len() > u32::MAX as usize {
            return Err(Dx12Error::new("too many frame buffers for one descriptor heap"));
        }
        proof {
            assert((resources@.len() as int) * (rtv_increment as int) <= 0xffff_ffff
                * 0xffff_ffff) by (nonlinear_arith)
                requires
                    resources@.len() <= 0xffff_ffff,
                    rtv_increment <= 0xffff_ffff,
            ;
        }
        let span: u64 = (resources.len() as u64) * (rtv_increment as u64);
        if rtv_heap_start > u64::MAX - span {
            return Err(Dx12Error::new("descriptor heap does not fit the address space"));
        }
        Ok(FrameTargets { rtv_heap_start, rtv_increment, dsv_heap_start, resources })
    }

    /// A target set with no frame buffers.
    pub(crate) fn empty() -> (r: FrameTargets)
        ensures
            r@ == (FrameTargetsView {
                rtv_heap_start: 0u64,
                rtv_increment: 0u32,
                dsv_heap_start: 0u64,
                resources: Seq::<ResourceId>::empty(),
            }),
    {
        let r = FrameTargets {
            rtv_heap_start: 0,
            rtv_increment: 0,
            dsv_heap_start: 0,
            resources: Vec::new(),
        };
        proof {
            assert(r@.resources =~= Seq::<ResourceId>::empty());
        }
        r
    }

    /// How many frame buffers this target set addresses.
    pub fn frame_buffer_count(&self) -> (n: usize)
        ensures
            n == self@.resources.len(),
    {
        self.resources.len()
    }

    /// The per-descriptor increment size of the RTV heap.
    pub fn rtv_increment(&self) -> (r: u32)
        ensures
            r == self@.rtv_increment,
    {
        self.rtv_increment
    }

    /// The render-target view descriptor handle for frame `frame_index`:
    /// the RTV heap's start offset by `frame_index` descriptor increments.
    /// Fails exactly when the index is out of range.
    pub fn rtv_handle(&self, frame_index: usize) -> (r: Result<DescriptorHandle, Dx12Error>)
        ensures
            r is Ok <==> frame_index < self@.resources.len(),
            r is Ok ==> {
                &&& r->Ok_0 == rtv_handle_for(self@, frame_index as int)
                &&& r->Ok_0.offset_spec() == self@.rtv_offset(frame_index as int)
            },
            r is Err ==> r->Err_0.kind_spec() == ErrorKind::StateViolation,
    {
        proof {
            use_type_invariant(self);
        }
        if frame_index >= self.resources.len() {
            return Err(Dx12Error::state_violation("frame index is out of range"));
        }
        proof {
            lemma_mul_inequality(
                frame_index as int,
                self@.resources.len() as int,
                self@.rtv_increment as int,
            );
        }
        Ok(DescriptorHandle::from_parts(self.rtv_heap_start, frame_index as u32, self.rtv_increment))
    }

    /// The fixed depth-stencil view descriptor handle: the DSV heap's start.
    /// A single depth buffer is shared by all frames.
    pub fn dsv_handle(&self) -> (r: DescriptorHandle)
        ensures
            r == dsv_handle_for(self@),
            r.offset_spec() == self@.dsv_heap_start,
    {
        DescriptorHandle::from_parts(self.dsv_heap_start, 0, 0)
    }

    /// The render-target resource backing frame `frame_index`, for barrier
    /// transitions.  Fails exactly when the index is out of range.
    pub fn render_target(&self, frame_index: usize) -> (r: Result<ResourceId, Dx12Error>)
        ensures
            r is Ok <==> frame_index < self@.resources.len(),
            r is Ok ==> r->Ok_0 == self@.resources[frame_index as int],
            r is Err ==> r->Err_0.kind_spec() == ErrorKind::StateViolation,
    {
        if frame_index >= self.resources.len() {
            return Err(Dx12Error::state_violation("frame index is out of range"));
        }
        Ok(self.resources[frame_index])
    }
}

} // verus!

use vstd::prelude::*;
use vstd::arithmetic::div_mod::lemma_fundamental_div_mod;
use crate::barrier::ResourceId;
use crate::dx12error::{Dx12Error, ErrorKind};

verus! {

/// A constant-buffer size rounded up to the 256-byte alignment the hardware
/// requires.
pub open spec fn align_up_256(size: int) -> int {
    ((size + 255) / 256) * 256
}

/// A constant buffer: one device resource per frame buffer, so the CPU can
/// fill one copy while the GPU reads the other, together with the aligned
/// size they were allocated with.
#[derive(Debug)]
pub struct ConstantBuffer {
    constant_buffer: Option<[ResourceId; 2]>,
    constant_buffer_size: u64,
    is_valid: bool,
}

impl ConstantBuffer {
    /// The pair of buffer resources, if the buffer has been created.
    pub closed spec fn buffers_spec(&self) -> Option<[ResourceId; 2]> {
        self.constant_buffer
    }

    /// The aligned size the buffers were allocated with.
    pub closed spec fn size_spec(&self) -> u64 {
        self.constant_buffer_size
    }

    /// Whether the buffer is ready for use.
    pub closed spec fn is_valid_spec(&self) -> bool {
        self.is_valid
    }

    /// A constant buffer whose backing resources are `buffers` and whose
    /// requested size is `constant_buffer_size`, rounded up to the 256-byte
    /// alignment constant buffers require.  Fails exactly when the rounded
    /// size would not fit.
    pub fn new(constant_buffer_size: u64, buffers: [ResourceId; 2]) -> (r: Result<
        ConstantBuffer,
        Dx12Error,
    >)
        ensures
            r is Ok <==> constant_buffer_size <= u64::MAX - 255,
            r is Ok ==> {
                &&& r->Ok_0.buffers_spec() == Some(buffers)
                &&& r->Ok_0.size_spec() == align_up_256(constant_buffer_size as int)
                &&& r->Ok_0.is_valid_spec()
            },
            r is Err ==> r->Err_0.kind_spec() == ErrorKind::ResourceCreationFailure,
    {
        if constant_buffer_size > u64::MAX - 255 {
            return Err(Dx12Error::new("constant buffer size does not fit when aligned"));
        }
        proof {
            lemma_fundamental_div_mod(constant_buffer_size + 255, 256);
        }
        let aligned: u64 = ((constant_buffer_size + 255) / 256) * 256;
        Ok(ConstantBuffer {
            constant_buffer: Some(buffers),
            constant_buffer_size: aligned,
            is_valid: true,
        })
    }

    /// Takes the buffer resources and size over from `cb`, leaving `cb`
    /// without buffers so the resources have a single owner.
    pub fn transfer_constant_buffer(&mut self, cb: &mut ConstantBuffer)
        ensures
            final(self).buffers_spec() == old(cb).buffers_spec(),
            final(self).size_spec() == old(cb).size_spec(),
            final(self).is_valid_spec() == old(self).is_valid_spec(),
            final(cb).buffers_spec() is None,
            final(cb).size_spec() == old(cb).size_spec(),
            final(cb).is_valid_spec() == old(cb).is_valid_spec(),
    {
        self.constant_buffer = cb.constant_buffer;
        cb.constant_buffer = None;
        self.constant_buffer_size = cb.constant_buffer_size;
    }

    /// The pair of buffer resources, if the buffer has been created.
    pub fn buffers(&self) -> (r: Option<[ResourceId; 2]>)
        ensures
            r == self.buffers_spec(),
    {
        self.constant_buffer
    }

    /// The aligned size the buffers were allocated with.
    pub fn size(&self) -> (r: u64)
        ensures
            r == self.size_spec(),
    {
        self.constant_buffer_size
    }

    /// Whether the buffer is ready for use.
    pub fn is_valid(&self) -> (r: bool)
        ensures
            r == self.is_valid_spec(),
    {
        self.is_valid
    }
}

impl Default for ConstantBuffer {
    /// A constant buffer that has not been created yet: no resources, size
    /// zero, not valid.
    fn default() -> (r: ConstantBuffer)
        ensures
            r.buffers_spec() is None,
            r.size_spec() == 0,
            !r.is_valid_spec(),
    {
        ConstantBuffer { constant_buffer: None, constant_buffer_size: 0, is_valid: false }
    }
}

} // verus!

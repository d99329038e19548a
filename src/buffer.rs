use vstd::arithmetic::div_mod::{lemma_fundamental_div_mod, lemma_mod_multiples_basic, lemma_mod_pos_bound};
use vstd::prelude::*;

verus! {

/// The least multiple of `align` that is at least `size`.
pub open spec fn round_up(size: int, align: int) -> int {
    (size + align - 1) / align * align
}

/// The distance between consecutive elements of `struct_size` bytes in a
/// uniform buffer whose offsets must be multiples of `min_align`: the size
/// rounded up to the next multiple of the alignment.
pub fn get_stride<T>(struct_size: usize, min_align: usize) -> (r: usize)
    requires
        min_align > 0,
        struct_size + min_align - 1 <= usize::MAX,
    ensures
        r == round_up(struct_size as int, min_align as int),
        r % min_align == 0,
        struct_size <= r < struct_size + min_align,
{
    let x = struct_size + (min_align - 1);
    let q = x / min_align;
    proof {
        lemma_fundamental_div_mod(x as int, min_align as int);
        lemma_mod_pos_bound(x as int, min_align as int);
        lemma_mod_multiples_basic(q as int, min_align as int);
        assert(q * min_align == min_align * q) by (nonlinear_arith);
    }
    q * min_align
}

/// Why a buffer operation was refused.
#[derive(Clone, Copy, PartialEq, Eq, Structural, Debug)]
pub enum BufferError {
    /// The payload's byte length differs from the buffer's declared capacity.
    SizeMismatch,
    /// The buffer has no memory bound to it yet.
    Unallocated,
    /// The buffer already has memory bound to it.
    AlreadyAllocated,
    /// The requested size does not fit in memory's address range.
    TooLarge,
    /// The driver reported a failure (its raw result code).
    VkError(i32),
}

/// One step of releasing a buffer, in the order the steps must run.
#[derive(Clone, Copy, PartialEq, Eq, Structural, Debug)]
pub enum BufferRelease {
    /// Return the allocation with this identifier to the allocator.
    FreeAllocation(u64),
    /// Destroy the buffer handle.
    DestroyHandle,
}

/// A GPU buffer: its declared capacity in bytes and the allocation bound to
/// it, if any.
pub struct Buffer {
    pub size: usize,
    pub allocation: Option<u64>,
}

/// The byte length of `count` elements of `elem_size` bytes.
pub open spec fn payload_bytes(count: nat, elem_size: nat) -> nat {
    count * elem_size
}

impl Buffer {
    /// A buffer of `size` bytes with no memory bound yet.
    pub fn new(size: usize) -> (r: Buffer)
        ensures
            r.size == size,
            r.allocation is None,
    {
        Buffer { size, allocation: None }
    }

    pub fn size(&self) -> (r: usize)
        ensures
            r == self.size,
    {
        self.size
    }

    /// Records the one allocation that backs the whole buffer. A second
    /// allocation is refused and leaves the buffer as it was, so that no
    /// allocation is ever dropped without being freed.
    pub fn allocate_full(&mut self, allocation: u64) -> (r: Result<(), BufferError>)
        ensures
            old(self).allocation is None ==> {
                &&& r is Ok
                &&& final(self).allocation == Some(allocation)
                &&& final(self).size == old(self).size
            },
            old(self).allocation is Some ==> {
                &&& r == Err::<(), BufferError>(BufferError::AlreadyAllocated)
                &&& *final(self) == *old(self)
            },
    {
        if self.allocation.is_some() {
            return Err(BufferError::AlreadyAllocated);
        }
        self.allocation = Some(allocation);
        Ok(())
    }

    /// Checks a write of `data` into the buffer's mapped memory, before any
    /// memory is touched. The payload must be exactly as long as the buffer's
    /// declared capacity, and the buffer must have memory bound to it. On
    /// success, returns the number of bytes to copy.
    pub fn update_mapped_data<T>(&self, data: &[T]) -> (r: Result<usize, BufferError>)
        ensures
            payload_bytes(data@.len(), vstd::layout::size_of::<T>()) != self.size ==> r == Err::<usize, BufferError>(BufferError::SizeMismatch),
            payload_bytes(data@.len(), vstd::layout::size_of::<T>()) == self.size && self.allocation is None
                ==> r == Err::<usize, BufferError>(BufferError::Unallocated),
            payload_bytes(data@.len(), vstd::layout::size_of::<T>()) == self.size && self.allocation is Some
                ==> r == Ok::<usize, BufferError>(self.size),
    {
        let bytes = match data.len().checked_mul(core::mem::size_of::<T>()) {
            Some(b) => b,
            None => {
                return Err(BufferError::SizeMismatch);
            },
        };
        if bytes != self.size {
            return Err(BufferError::SizeMismatch);
        }
        if self.allocation.is_none() {
            return Err(BufferError::Unallocated);
        }
        Ok(self.size)
    }

    /// Releases the buffer: its allocation, if any, is freed first, then the
    /// handle is destroyed. Afterwards no allocation is bound.
    pub fn release(&mut self) -> (r: Vec<BufferRelease>)
        ensures
            r@ == match old(self).allocation {
                Some(a) => seq![BufferRelease::FreeAllocation(a), BufferRelease::DestroyHandle],
                None => seq![BufferRelease::DestroyHandle],
            },
            final(self).allocation is None,
            final(self).size == old(self).size,
    {
        let mut steps: Vec<BufferRelease> = Vec::new();
        match self.allocation {
            Some(a) => {
                steps.push(BufferRelease::FreeAllocation(a));
            },
            None => {},
        }
        steps.push(BufferRelease::DestroyHandle);
        self.allocation = None;
        proof {
            match old(self).allocation {
                Some(a) => {
                    assert(steps@ =~= seq![BufferRelease::FreeAllocation(a), BufferRelease::DestroyHandle]);
                },
                None => {
                    assert(steps@ =~= seq![BufferRelease::DestroyHandle]);
                },
            }
        }
        steps
    }
}

/// The part of a uniform buffer that a descriptor points at.
#[derive(Clone, Copy, PartialEq, Eq, Structural, Debug)]
pub struct DescriptorRange {
    pub offset: u64,
    pub range: u64,
}

/// A buffer of `count` uniform elements of `elem_size` bytes each, placed
/// `stride` bytes apart so that every element starts at an aligned offset.
pub struct UniformBuffer {
    pub buffer: Buffer,
    pub count: usize,
    pub stride: usize,
    pub min_align: usize,
    pub elem_size: usize,
}

impl UniformBuffer {
    /// The layout invariant: every element fits within the buffer.
    pub open spec fn wf(&self) -> bool {
        &&& self.min_align > 0
        &&& self.elem_size <= self.stride
        &&& self.stride % self.min_align == 0
        &&& self.buffer.size == self.stride * self.count
    }

    /// Lays out `count` elements of `elem_size` bytes with the device's
    /// minimum uniform-buffer offset alignment; the buffer is `stride *
    /// count` bytes long. Fails exactly when the stride or that size does
    /// not fit in memory's address range.
    pub fn new(elem_size: usize, count: usize, min_align: usize) -> (r: Result<UniformBuffer, BufferError>)
        requires
            min_align > 0,
        ensures
            match r {
                Ok(u) => {
                    &&& u.wf()
                    &&& u.stride == round_up(elem_size as int, min_align as int)
                    &&& u.count == count
                    &&& u.elem_size == elem_size
                    &&& u.min_align == min_align
                    &&& elem_size <= u.stride < elem_size + min_align
                    &&& u.buffer.allocation is None
                },
                Err(e) => {
                    &&& e == BufferError::TooLarge
                    &&& (elem_size + min_align - 1 > usize::MAX
                        || round_up(elem_size as int, min_align as int) * count > usize::MAX)
                },
            },
    {
        if elem_size > usize::MAX - (min_align - 1) {
            return Err(BufferError::TooLarge);
        }
        let stride = get_stride::<u8>(elem_size, min_align);
        let size = match stride.checked_mul(count) {
            Some(s) => s,
            None => {
                return Err(BufferError::TooLarge);
            },
        };
        Ok(UniformBuffer { buffer: Buffer::new(size), count, stride, min_align, elem_size })
    }

    /// The byte offset at which element `idx` is written.
    pub fn write(&self, idx: usize) -> (r: usize)
        requires
            self.wf(),
            idx < self.count,
        ensures
            r == idx * self.stride,
            r + self.elem_size <= self.buffer.size,
    {
        let stride = self.stride;
        let count = self.count;
        proof {
            assert(idx * stride + stride <= stride * count) by (nonlinear_arith)
                requires
                    idx < count,
            ;
        }
        idx * stride
    }

    /// The descriptor range of element `idx`: its offset and its size.
    pub fn descriptor_info(&self, idx: usize) -> (r: DescriptorRange)
        requires
            self.wf(),
            idx < self.count,
        ensures
            r.offset == idx * self.stride,
            r.range == self.elem_size,
    {
        let offset = self.write(idx);
        DescriptorRange { offset: offset as u64, range: self.elem_size as u64 }
    }
}

} // verus!

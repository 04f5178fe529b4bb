//! Buffers: linear allocations of elements of one type, whose sizes and
//! written regions are checked against their capacity.

use vstd::prelude::*;
use vstd::layout::size_of;
use vstd::slice::slice_to_vec;
use core::marker::PhantomData;
use crate::context::Context;
use crate::violation::Violation;

verus! {

/// Specifies the storage access of the buffer in the kernel.
#[derive(Debug, Clone, Copy, PartialEq, Eq, Structural)]
pub enum BufferAccess {
    /// The buffer can only be read.
    ReadOnly,
    /// The buffer may be read and written.
    ReadWrite,
}

/// The region of a buffer, in bytes, that a write fills.
#[derive(Debug, Clone, Copy, PartialEq, Eq, Structural)]
pub struct BufferWrite {
    /// Offset of the first byte written.
    pub offset: u64,
    /// Number of bytes written.
    pub size: u64,
}

/// The uses that a buffer is allocated for.
#[derive(Debug, Clone, Copy, PartialEq, Eq, Structural)]
pub struct BufferUsages {
    /// The buffer can be bound for storage in a kernel.
    pub storage: bool,
    /// The buffer can be the source of a copy.
    pub copy_src: bool,
    /// The buffer can be the destination of a copy or a write.
    pub copy_dst: bool,
    /// The buffer can be mapped for reading by the host.
    pub map_read: bool,
}

impl BufferUsages {
    /// The uses of a buffer that kernels work on: storage, and both ends of a
    /// copy.
    pub open spec fn spec_storage() -> BufferUsages {
        BufferUsages { storage: true, copy_src: true, copy_dst: true, map_read: false }
    }

    /// The uses of a buffer through which the host reads device memory: the
    /// destination of a copy, and mapping for reading.
    pub open spec fn spec_staging() -> BufferUsages {
        BufferUsages { storage: false, copy_src: false, copy_dst: true, map_read: true }
    }

    /// The uses of a buffer that kernels work on: storage, and both ends of a
    /// copy.
    #[verifier::when_used_as_spec(spec_storage)]
    pub fn storage() -> (r: Self)
        ensures
            r == Self::spec_storage(),
    {
        BufferUsages { storage: true, copy_src: true, copy_dst: true, map_read: false }
    }

    /// The uses of a buffer through which the host reads device memory: the
    /// destination of a copy, and mapping for reading.
    #[verifier::when_used_as_spec(spec_staging)]
    pub fn staging() -> (r: Self)
        ensures
            r == Self::spec_staging(),
    {
        BufferUsages { storage: false, copy_src: false, copy_dst: true, map_read: true }
    }
}

/// What the backend is asked for when a buffer is allocated.
#[derive(Debug, Clone, Copy, PartialEq, Eq, Structural)]
pub struct BufferDescriptor {
    /// Size of the buffer, in bytes.
    pub size: u64,
    /// The uses that the buffer is allocated for.
    pub usage: BufferUsages,
    /// Whether the buffer is mapped when it is created.
    pub mapped_at_creation: bool,
}

/// A copy of bytes from one buffer into another.
#[derive(Debug, Clone, Copy, PartialEq, Eq, Structural)]
pub struct BufferCopy {
    /// Offset in the source of the first byte copied.
    pub source_offset: u64,
    /// Offset in the destination of the first byte copied.
    pub destination_offset: u64,
    /// Number of bytes copied.
    pub size: u64,
}

/// The bytes that `elements` elements of `T` take.
pub open spec fn bytes_of<T>(elements: nat) -> nat {
    elements * size_of::<T>()
}

/// The shape of a buffer on the device that stores `capacity` elements of `T`.
#[derive(Debug)]
pub struct Buffer<T> {
    capacity: u64,
    _marker: PhantomData<T>,
}

impl<T> Buffer<T> {
    #[verifier::type_invariant]
    spec fn inv(&self) -> bool {
        bytes_of::<T>(self.capacity as nat) <= u64::MAX
    }

    /// The number of elements that the buffer stores.
    pub closed spec fn spec_capacity(&self) -> u64 {
        self.capacity
    }

    /// The size of the buffer in bytes.
    pub open spec fn spec_size(&self) -> nat {
        bytes_of::<T>(self.spec_capacity() as nat)
    }

    /// Says whether a buffer of `capacity` elements may be allocated: it may
    /// unless it would take more bytes than the device's `max_buffer_size`.
    pub fn validate_capacity(context: &Context, capacity: u64) -> (r: Result<(), Violation>)
        ensures
            r is Ok <==> bytes_of::<T>(capacity as nat) <= context.limits().max_buffer_size,
            r is Err ==> r == Err::<(), Violation>(Violation::BufferTooLarge),
    {
        let element: u64 = core::mem::size_of::<T>() as u64;
        let max: u64 = context.limits().max_buffer_size;
        if element == 0 {
            assert(bytes_of::<T>(capacity as nat) == 0) by (nonlinear_arith)
                requires
                    size_of::<T>() == 0,
            ;
            return Ok(());
        }
        if capacity > max / element {
            assert(capacity as nat * size_of::<T>() > max) by (nonlinear_arith)
                requires
                    capacity > max / element,
                    element == size_of::<T>(),
                    element > 0,
            ;
            Err(Violation::BufferTooLarge)
        } else {
            assert(capacity as nat * size_of::<T>() <= max) by (nonlinear_arith)
                requires
                    capacity <= max / element,
                    element == size_of::<T>(),
                    element > 0,
            ;
            Ok(())
        }
    }

    /// Creates the shape of a buffer with `capacity` elements of `T`.
    pub fn new(context: &Context, capacity: u64) -> (r: Self)
        requires
            bytes_of::<T>(capacity as nat) <= context.limits().max_buffer_size,
        ensures
            r.capacity() == capacity,
    {
        Buffer { capacity, _marker: PhantomData }
    }

    /// Creates the shape of an empty buffer able to store the same amount of
    /// data as `other` does.
    pub fn empty_like(other: &Self) -> (r: Self)
        ensures
            r.capacity() == other.capacity(),
    {
        proof {
            use_type_invariant(other);
        }
        Buffer { capacity: other.capacity, _marker: PhantomData }
    }

    /// Creates the shape of a buffer that is allocated with `data` in it: it
    /// stores as many elements as `data` has.
    pub fn from_slice(context: &Context, data: &[T]) -> (r: Self)
        requires
            bytes_of::<T>(data@.len()) <= context.limits().max_buffer_size,
        ensures
            r.capacity() == data@.len(),
    {
        let len: usize = data.len();
        Buffer { capacity: len as u64, _marker: PhantomData }
    }

    /// The number of elements that the buffer stores.
    #[verifier::when_used_as_spec(spec_capacity)]
    pub fn capacity(&self) -> (r: u64)
        ensures
            r == self.capacity(),
    {
        self.capacity
    }

    /// The size of the buffer in bytes.
    pub fn size(&self) -> (r: u64)
        ensures
            r == self.spec_size(),
    {
        proof {
            use_type_invariant(self);
        }
        let element: u64 = core::mem::size_of::<T>() as u64;
        self.capacity * element
    }

    /// What the backend is asked for to allocate the buffer: its size in
    /// bytes, for storage and copies, not mapped.
    pub fn descriptor(&self) -> (r: BufferDescriptor)
        ensures
            r.size == self.spec_size(),
            r.usage == BufferUsages::spec_storage(),
            !r.mapped_at_creation,
    {
        BufferDescriptor {
            size: self.size(),
            usage: BufferUsages::storage(),
            mapped_at_creation: false,
        }
    }

    /// What the backend is asked for to allocate the buffer through which the
    /// host reads this one: as many bytes, to be copied into and mapped.
    pub fn staging_descriptor(&self) -> (r: BufferDescriptor)
        ensures
            r.size == self.spec_size(),
            r.usage == BufferUsages::spec_staging(),
            !r.mapped_at_creation,
    {
        BufferDescriptor {
            size: self.size(),
            usage: BufferUsages::staging(),
            mapped_at_creation: false,
        }
    }

    /// The copy that brings the whole buffer into its staging buffer.
    pub fn staging_copy(&self) -> (r: BufferCopy)
        ensures
            r.source_offset == 0,
            r.destination_offset == 0,
            r.size == self.spec_size(),
    {
        BufferCopy { source_offset: 0, destination_offset: 0, size: self.size() }
    }

    /// Says whether `len` elements may be written to the buffer from the
    /// element `index` on: they may unless they would run over its end.
    pub fn validate_write(&self, len: usize, index: u64) -> (r: Result<(), Violation>)
        ensures
            r is Ok <==> index + len <= self.capacity(),
            r is Err ==> r == Err::<(), Violation>(Violation::WriteOutOfBounds),
    {
        if index > self.capacity || len as u64 > self.capacity - index {
            Err(Violation::WriteOutOfBounds)
        } else {
            Ok(())
        }
    }

    /// The region of the buffer that is filled when `data` is written to it
    /// from the element `index` on: the bytes of `data`, from the byte at
    /// which the element `index` starts.
    pub fn write(&self, data: &[T], index: u64) -> (r: BufferWrite)
        requires
            index + data@.len() <= self.capacity(),
        ensures
            r.offset == bytes_of::<T>(index as nat),
            r.size == bytes_of::<T>(data@.len()),
            r.offset + r.size <= self.spec_size(),
    {
        proof {
            use_type_invariant(self);
        }
        let element: u64 = core::mem::size_of::<T>() as u64;
        let len: u64 = data.len() as u64;
        proof {
            assert(index * element + len * element == (index + len) * element
                && (index + len) * element <= self.capacity * element) by (nonlinear_arith)
                requires
                    index + len <= self.capacity,
            ;
        }
        BufferWrite { offset: index * element, size: len * element }
    }

    /// The elements that a read of the whole buffer gives, out of `mapped`,
    /// the memory into which the backend copied the buffer.
    pub fn read_to_vec(&self, mapped: &[T]) -> (r: Vec<T>) where T: Copy
        requires
            mapped@.len() == self.capacity(),
        ensures
            r@ == mapped@,
            r@.len() == self.capacity(),
    {
        slice_to_vec(mapped)
    }
}

/// Where the elements of a write lie: when `len` elements are written to a
/// buffer of `capacity` elements from the element `index` on, the element at
/// the position `j` of the data fills the bytes at which the element
/// `index + j` of the buffer lies, and these are within the written region
/// and within the buffer.
pub proof fn lemma_written_element_lies_in_region<T>(capacity: nat, index: nat, len: nat, j: nat)
    requires
        index + len <= capacity,
        j < len,
    ensures
        bytes_of::<T>(index + j) == bytes_of::<T>(index) + bytes_of::<T>(j),
        bytes_of::<T>(index + j) + size_of::<T>() == bytes_of::<T>(index + j + 1),
        bytes_of::<T>(index + j + 1) <= bytes_of::<T>(index) + bytes_of::<T>(len),
        bytes_of::<T>(index) + bytes_of::<T>(len) <= bytes_of::<T>(capacity),
{
    let size = size_of::<T>();
    assert((index + j) * size == index * size + j * size) by (nonlinear_arith);
    assert((index + j) * size + size == (index + j + 1) * size) by (nonlinear_arith);
    assert((index + j + 1) * size <= (index + len) * size) by (nonlinear_arith)
        requires
            j + 1 <= len,
    ;
    assert((index + len) * size == index * size + len * size) by (nonlinear_arith);
    assert((index + len) * size <= capacity * size) by (nonlinear_arith)
        requires
            index + len <= capacity,
    ;
}

} // verus!

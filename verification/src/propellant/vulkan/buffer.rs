//! Layout of GPU buffers: views into a buffer and the checks on writes.
use vstd::prelude::*;

verus! {

/// Marker for buffers that can be the destination of a transfer.
pub trait TransferDst {}

/// Marker for buffers that can be the source of a transfer.
pub trait TransferSrc {}

/// Marker for storage buffers: device local, written by transfers.
pub struct Storage;

impl TransferDst for Storage {}

/// View into a given buffer: an offset and a length, both counted in
/// elements of type `T`, not bytes.
#[derive(Debug)]
pub struct BufferView<T> {
    offset: usize,
    length: usize,
    _m: std::marker::PhantomData<T>,
}

impl<T> Clone for BufferView<T> {
    fn clone(&self) -> (view: Self)
        ensures
            view == *self,
    {
        BufferView { offset: self.offset, length: self.length, _m: std::marker::PhantomData }
    }
}

impl<T> Copy for BufferView<T> {}


impl<T> BufferView<T> {
    /// First element of the view.
    pub closed spec fn spec_offset(&self) -> nat {
        self.offset as nat
    }

    /// Number of elements of the view.
    pub closed spec fn spec_length(&self) -> nat {
        self.length as nat
    }

    /// The view of nothing, at the start of the buffer.
    pub fn empty() -> (view: Self)
        ensures
            view.spec_offset() == 0,
            view.spec_length() == 0,
    {
        BufferView { offset: 0, length: 0, _m: std::marker::PhantomData }
    }

    /// First element of the view.
    pub fn offset(&self) -> (offset: usize)
        ensures
            offset == self.spec_offset(),
    {
        self.offset
    }

    /// Number of elements of the view.
    pub fn length(&self) -> (length: usize)
        ensures
            length == self.spec_length(),
    {
        self.length
    }
}

/// A write that would not fit in its buffer.
#[derive(Debug, Clone, Copy, PartialEq, Eq)]
pub struct BufferWriteError {
    pub buffer_capacity: usize,
    pub offset: usize,
    pub length: usize,
}

impl BufferWriteError {
    pub fn new(buffer_capacity: usize, offset: usize, length: usize) -> (error: Self)
        ensures
            error == (BufferWriteError { buffer_capacity, offset, length }),
    {
        BufferWriteError { buffer_capacity, offset, length }
    }
}

/// Decides where writing `length` elements at element `offset` lands in a
/// buffer of `capacity` elements: the view written, or the error when the
/// data would run past the end.
pub fn write_view<T>(capacity: usize, offset: usize, length: usize) -> (written: Result<
    BufferView<T>,
    BufferWriteError,
>)
    ensures
        written is Ok <==> offset + length <= capacity,
        written matches Ok(view) ==> view.spec_offset() == offset && view.spec_length() == length,
        written matches Err(e) ==> e == BufferWriteError::new_spec(capacity, offset, length),
{
    if length <= capacity && offset <= capacity - length {
        Ok(BufferView { offset, length, _m: std::marker::PhantomData })
    } else {
        Err(BufferWriteError::new(capacity, offset, length))
    }
}

impl BufferWriteError {
    /// The error for a write of `length` elements at `offset` in a buffer of
    /// `buffer_capacity` elements.
    pub open spec fn new_spec(buffer_capacity: usize, offset: usize, length: usize) -> Self {
        BufferWriteError { buffer_capacity, offset, length }
    }
}

/// A copy between two buffers, in bytes.
#[derive(Debug, Clone, Copy, PartialEq, Eq)]
pub struct BufferCopyRegion {
    pub src_offset: u64,
    pub dst_offset: u64,
    pub size: u64,
}

/// The bytes to copy from `source_view` to `destination_view`, for
/// elements of `element_size` bytes; `None` when the views differ in
/// length, in which case nothing is copied.
pub fn copy_region<T>(source_view: BufferView<T>, destination_view: BufferView<T>, element_size: usize) -> (region: Option<BufferCopyRegion>)
    requires
        source_view.spec_offset() * element_size <= usize::MAX,
        destination_view.spec_offset() * element_size <= usize::MAX,
        source_view.spec_length() * element_size <= usize::MAX,
    ensures
        region is None <==> source_view.spec_length() != destination_view.spec_length(),
        region matches Some(r) ==> {
            &&& r.src_offset == source_view.spec_offset() * element_size
            &&& r.dst_offset == destination_view.spec_offset() * element_size
            &&& r.size == source_view.spec_length() * element_size
        },
{
    if source_view.length() != destination_view.length() {
        return None;
    }
    let src_offset = source_view.offset() * element_size;
    let dst_offset = destination_view.offset() * element_size;
    let size = source_view.length() * element_size;
    Some(BufferCopyRegion { src_offset: src_offset as u64, dst_offset: dst_offset as u64, size: size as u64 })
}

/// Memory type `i` is allowed by `type_bits` and has every required
/// property.
pub open spec fn memory_type_fits(memory_type_flags: Seq<u32>, type_bits: u32, required_properties: u32, i: int) -> bool {
    &&& 0 <= i < memory_type_flags.len()
    &&& type_bits & (1u32 << (i as u32)) != 0
    &&& memory_type_flags[i] & required_properties == required_properties
}

/// Finds the first memory type that the buffer's `type_bits` allow and
/// that has every required property, given each memory type's property
/// bits. `None` when there is no such memory type.
pub fn find_memory_type(memory_type_flags: &[u32], type_bits: u32, required_properties: u32) -> (index: Option<u32>)
    requires
        memory_type_flags@.len() <= 32,
    ensures
        index is None ==> forall|i: int|
            !#[trigger] memory_type_fits(memory_type_flags@, type_bits, required_properties, i),
        index matches Some(i) ==> memory_type_fits(
            memory_type_flags@,
            type_bits,
            required_properties,
            i as int,
        ) && forall|j: int|
            0 <= j < i ==> !#[trigger] memory_type_fits(
                memory_type_flags@,
                type_bits,
                required_properties,
                j,
            ),
{
    let mut i: u32 = 0;
    while (i as usize) < memory_type_flags.len()
        invariant
            i <= memory_type_flags@.len(),
            memory_type_flags@.len() <= 32,
            forall|j: int|
                0 <= j < i ==> !#[trigger] memory_type_fits(
                    memory_type_flags@,
                    type_bits,
                    required_properties,
                    j,
                ),
        decreases memory_type_flags@.len() - i,
    {
        let type_supported = (type_bits & (1u32 << i)) != 0;
        let flags = memory_type_flags[i as usize];
        let props_supported = flags & required_properties == required_properties;
        if type_supported && props_supported {
            return Some(i);
        }
        i = i + 1;
    }
    None
}

} // verus!

use vstd::prelude::*;

verus! {

/// What a GPU read-back buffer is made with: a debug label and a capacity in
/// elements.
pub struct GpuBufferDesc {
    pub label: String,
    pub capacity: u32,
}

impl GpuBufferDesc {
    /// A description with the given label and the default capacity of one
    /// element.
    pub fn builder(label: String) -> (r: GpuBufferDesc)
        ensures
            r.label@ == label@,
            r.capacity == 1,
    {
        GpuBufferDesc { label, capacity: 1 }
    }

    /// The same description with another capacity.
    pub fn capacity(self, capacity: u32) -> (r: GpuBufferDesc)
        ensures
            r.label@ == self.label@,
            r.capacity == capacity,
    {
        GpuBufferDesc { label: self.label, capacity }
    }

    /// The same description with another label.
    pub fn with_name(self, name: String) -> (r: GpuBufferDesc)
        ensures
            r.label@ == name@,
            r.capacity == self.capacity,
    {
        let mut s = self;
        s.label = name;
        s
    }

    /// The size in bytes of a buffer of `capacity` elements of `element_size`
    /// bytes.
    pub fn byte_width(&self, element_size: u32) -> (r: u32)
        requires
            element_size * self.capacity <= u32::MAX,
        ensures
            r == element_size * self.capacity,
    {
        element_size * self.capacity
    }

    /// True when `index` names an element of the buffer.
    pub fn holds_element(&self, index: u32) -> (r: bool)
        ensures
            r == (index < self.capacity),
    {
        index < self.capacity
    }
}

/// The size of a constant buffer for data of `size` bytes: the size rounded
/// up to a multiple of 16 bytes.
pub fn constant_buffer_size(size: usize) -> (r: usize)
    requires
        size + 15 <= usize::MAX,
    ensures
        r % 16 == 0,
        size <= r < size + 16,
{
    let padded: usize = size + 15;
    let r = padded & !15usize;
    assert(r % 16 == 0 && r <= padded && padded - r < 16) by (bit_vector)
        requires
            r == padded & !15usize,
    ;
    r
}

/// The vertex buffer capacity for `len` vertices when `capacity` are
/// allocated: the buffer is made again, with room for exactly `len`, only
/// when it is too small; it never shrinks.
pub fn vertex_buffer_capacity(len: usize, capacity: usize) -> (r: (bool, usize))
    ensures
        r == (if len > capacity {
            (true, len)
        } else {
            (false, capacity)
        }),
{
    if len > capacity {
        (true, len)
    } else {
        (false, capacity)
    }
}

} // verus!

//! Bit-flag sets used by the Vulkan layer.
//!
//! Each set is a word of bits; `contains`, `intersects`, `remove` and
//! `from_bits` behave as the usual bit-flag operations.
use vstd::prelude::*;

verus! {

/// Whether every bit of `other` is set in `bits`.
pub open spec fn bits_contain(bits: u32, other: u32) -> bool {
    bits & other == other
}

/// Whether `bits` and `other` share a set bit.
pub open spec fn bits_intersect(bits: u32, other: u32) -> bool {
    bits & other != 0
}

/// The queue capabilities of a Vulkan queue family.
#[derive(Clone, Copy, Debug, PartialEq, Eq, Structural)]
pub struct QueueFlags {
    pub bits: u32,
}

impl QueueFlags {
    pub fn graphics() -> (r: QueueFlags)
        ensures
            r.bits == 0x1,
    {
        QueueFlags { bits: 0x1 }
    }

    pub fn compute() -> (r: QueueFlags)
        ensures
            r.bits == 0x2,
    {
        QueueFlags { bits: 0x2 }
    }

    pub fn transfer() -> (r: QueueFlags)
        ensures
            r.bits == 0x4,
    {
        QueueFlags { bits: 0x4 }
    }

    /// The bits of every known queue flag.
    pub open spec fn all_bits() -> u32 {
        0x7
    }

    /// The raw bits of the set.
    pub fn bits(&self) -> (b: u32)
        ensures
            b == self.bits,
    {
        self.bits
    }

    /// The set of known flags whose bits are `bits`, or `None` where `bits`
    /// holds a bit that names no flag.
    pub fn from_bits(bits: u32) -> (r: Option<QueueFlags>)
        ensures
            r == (if bits & !Self::all_bits() == 0 { Some(QueueFlags { bits }) } else { None::<QueueFlags> }),
    {
        if bits & !0x7u32 == 0 {
            Some(QueueFlags { bits })
        } else {
            None
        }
    }

    /// Whether every flag of `other` is in this set.
    pub fn contains(&self, other: QueueFlags) -> (r: bool)
        ensures
            r == bits_contain(self.bits, other.bits),
    {
        self.bits & other.bits == other.bits
    }
}

/// The shader stages a shader or a push constant applies to.
#[derive(Clone, Copy, Debug, PartialEq, Eq, Structural)]
pub struct ShaderStageFlags {
    pub bits: u32,
}

impl ShaderStageFlags {
    pub fn vertex() -> (r: ShaderStageFlags)
        ensures
            r.bits == 0b1,
    {
        ShaderStageFlags { bits: 0b1 }
    }

    pub fn fragment() -> (r: ShaderStageFlags)
        ensures
            r.bits == 0b10000,
    {
        ShaderStageFlags { bits: 0b10000 }
    }

    pub fn compute() -> (r: ShaderStageFlags)
        ensures
            r.bits == 0b100000,
    {
        ShaderStageFlags { bits: 0b100000 }
    }

    pub fn all_graphics() -> (r: ShaderStageFlags)
        ensures
            r.bits == 0b11111,
    {
        ShaderStageFlags { bits: 0b11111 }
    }

    /// The bits of every known stage flag.
    pub open spec fn all_bits() -> u32 {
        0b111111
    }

    /// The empty set.
    pub fn empty() -> (r: ShaderStageFlags)
        ensures
            r.bits == 0,
    {
        ShaderStageFlags { bits: 0 }
    }

    /// The raw bits of the set.
    pub fn bits(&self) -> (b: u32)
        ensures
            b == self.bits,
    {
        self.bits
    }

    /// The set whose bits are `bits`, or `None` where `bits` holds a bit
    /// that names no stage.
    pub fn from_bits(bits: u32) -> (r: Option<ShaderStageFlags>)
        ensures
            r == (if bits & !Self::all_bits() == 0 {
                Some(ShaderStageFlags { bits })
            } else {
                None::<ShaderStageFlags>
            }),
    {
        if bits & !0b111111u32 == 0 {
            Some(ShaderStageFlags { bits })
        } else {
            None
        }
    }

    /// Whether the set is empty.
    pub fn is_empty(&self) -> (r: bool)
        ensures
            r == (self.bits == 0),
    {
        self.bits == 0
    }

    /// Whether every stage of `other` is in this set.
    pub fn contains(&self, other: ShaderStageFlags) -> (r: bool)
        ensures
            r == bits_contain(self.bits, other.bits),
    {
        self.bits & other.bits == other.bits
    }

    /// Whether this set and `other` share a stage.
    pub fn intersects(&self, other: ShaderStageFlags) -> (r: bool)
        ensures
            r == bits_intersect(self.bits, other.bits),
    {
        self.bits & other.bits != 0
    }

    /// Removes the stages of `other` from this set.
    pub fn remove(&mut self, other: ShaderStageFlags)
        ensures
            final(self).bits == old(self).bits & !other.bits,
    {
        self.bits = self.bits & !other.bits;
    }
}

/// The ways a buffer may be used.
#[derive(Clone, Copy, Debug, PartialEq, Eq, Structural)]
pub struct BufferUsageFlags {
    pub bits: u32,
}

impl BufferUsageFlags {
    /// Buffer can be used as the source of a transfer command
    pub fn transfer_src() -> (r: BufferUsageFlags)
        ensures
            r.bits == 0x1,
    {
        BufferUsageFlags { bits: 0x1 }
    }

    /// Buffer can be used as the destination of a transfer command
    pub fn transfer_dst() -> (r: BufferUsageFlags)
        ensures
            r.bits == 0x2,
    {
        BufferUsageFlags { bits: 0x2 }
    }

    /// Buffer can be used to create a descriptor buffer info
    pub fn uniform_buffer() -> (r: BufferUsageFlags)
        ensures
            r.bits == 0x10,
    {
        BufferUsageFlags { bits: 0x10 }
    }

    /// Buffer can be bound as an index buffer
    pub fn index_buffer() -> (r: BufferUsageFlags)
        ensures
            r.bits == 0x40,
    {
        BufferUsageFlags { bits: 0x40 }
    }

    /// Buffer can be bound as a vertex buffer
    pub fn vertex_buffer() -> (r: BufferUsageFlags)
        ensures
            r.bits == 0x80,
    {
        BufferUsageFlags { bits: 0x80 }
    }

    /// Whether every usage of `other` is in this set.
    pub fn contains(&self, other: BufferUsageFlags) -> (r: bool)
        ensures
            r == bits_contain(self.bits, other.bits),
    {
        self.bits & other.bits == other.bits
    }
}

/// The properties of a kind of device memory.
#[derive(Clone, Copy, Debug, PartialEq, Eq, Structural)]
pub struct MemoryPropertyFlags {
    pub bits: u32,
}

impl MemoryPropertyFlags {
    /// Memory allocated is the most efficient for device access
    pub fn device_local() -> (r: MemoryPropertyFlags)
        ensures
            r.bits == 0b1,
    {
        MemoryPropertyFlags { bits: 0b1 }
    }

    /// Memory allocated can be mapped for host access
    pub fn host_visible() -> (r: MemoryPropertyFlags)
        ensures
            r.bits == 0b10,
    {
        MemoryPropertyFlags { bits: 0b10 }
    }

    /// Host memory flushing is not needed to make writes visible
    pub fn host_coherent() -> (r: MemoryPropertyFlags)
        ensures
            r.bits == 0b100,
    {
        MemoryPropertyFlags { bits: 0b100 }
    }

    /// Whether every property of `other` is in this set.
    pub fn contains(&self, other: MemoryPropertyFlags) -> (r: bool)
        ensures
            r == bits_contain(self.bits, other.bits),
    {
        self.bits & other.bits == other.bits
    }
}

} // verus!

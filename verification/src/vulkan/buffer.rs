//! Buffer layout and the checks of buffer use.
use vstd::prelude::*;
use crate::vulkan::device::LogicalDeviceError;
use crate::vulkan::flags::{bits_contain, BufferUsageFlags};

verus! {

/// Rounding up with the mask `(size + align - 1) & !(align - 1)`, for an
/// alignment `align` that is a power of two, gives the least multiple of
/// `align` at or above `size`: its low bits are clear, it is at least `size`,
/// and less than `size + align`.
pub proof fn lemma_align_up(size: u64, shift: u32)
    requires
        shift < 64,
        size + ((1u64 << shift) - 1) <= u64::MAX,
    ensures
        ({
            let mask = ((1u64 << shift) - 1) as u64;
            let r = ((size + mask) as u64) & !mask;
            &&& r & mask == 0
            &&& size <= r
            &&& r < size + (1u64 << shift)
        }),
{
    let align: u64 = 1u64 << shift;
    assert(align > 0) by (bit_vector)
        requires
            shift < 64,
            align == 1u64 << shift;
    let mask: u64 = (align - 1) as u64;
    let x: u64 = (size + mask) as u64;
    let r = x & !mask;
    assert(r & mask == 0) by (bit_vector)
        requires
            r == x & !mask;
    assert(r + (x & mask) == x && (x & mask) <= mask) by (bit_vector)
        requires
            r == x & !mask;
}

/// Errors of buffer use
#[derive(Clone, Copy, Debug, PartialEq, Eq, Structural)]
pub enum BufferError {
    /// The copy cannot be made
    InvalidCopy(CopyProblem),
    DeviceError(LogicalDeviceError),
}

/// Why a buffer copy cannot be made
#[derive(Clone, Copy, Debug, PartialEq, Eq, Structural)]
pub enum CopyProblem {
    /// The buffer copied to lacks the transfer-destination usage
    MissingTransferDst,
    /// The buffer copied from lacks the transfer-source usage
    MissingTransferSrc,
    /// The device has no queue to transfer with
    MissingTransferQueue,
}

/// Checks that a copy from one buffer to another may be made: the buffer
/// copied to must be a transfer destination, the one copied from a transfer
/// source.
pub fn check_copy(dst_usage: BufferUsageFlags, src_usage: BufferUsageFlags) -> (r: Result<(), BufferError>)
    ensures
        !bits_contain(dst_usage.bits, 0x2) ==> r == Err::<(), BufferError>(BufferError::InvalidCopy(CopyProblem::MissingTransferDst)),
        bits_contain(dst_usage.bits, 0x2) && !bits_contain(src_usage.bits, 0x1)
            ==> r == Err::<(), BufferError>(BufferError::InvalidCopy(CopyProblem::MissingTransferSrc)),
        bits_contain(dst_usage.bits, 0x2) && bits_contain(src_usage.bits, 0x1) ==> r is Ok,
{
    if !dst_usage.contains(BufferUsageFlags::transfer_dst()) {
        return Err(BufferError::InvalidCopy(CopyProblem::MissingTransferDst));
    }
    if !src_usage.contains(BufferUsageFlags::transfer_src()) {
        return Err(BufferError::InvalidCopy(CopyProblem::MissingTransferSrc));
    }
    Ok(())
}

/// The size of the whole of a buffer, as a descriptor range.
pub const WHOLE_SIZE: u64 = 0xffff_ffff_ffff_ffff;

/// The layout of a buffer of `capacity` instances: the usages it was created
/// with and its size in bytes.
#[derive(Clone, Copy, Debug, PartialEq, Eq, Structural)]
pub struct BufferLayout {
    pub usage: BufferUsageFlags,
    pub capacity: usize,
    pub size: usize,
}

/// The byte size of each instance in a buffer: a uniform buffer's instances
/// are aligned to the device's minimum uniform offset alignment (a power of
/// two), other buffers' are not.
pub open spec fn instance_stride(instance_size: usize, usage: BufferUsageFlags, min_uniform_alignment: usize) -> int {
    if bits_contain(usage.bits, 0x10) {
        (((instance_size + (min_uniform_alignment - 1)) as usize) & !((min_uniform_alignment - 1) as usize)) as int
    } else {
        instance_size as int
    }
}

/// Whether `a` is a power of two that a `usize` holds.
pub open spec fn is_power_of_two(a: usize) -> bool {
    exists|n: nat| n < usize::BITS && a == #[trigger] vstd::arithmetic::power2::pow2(n)
}

/// A uniform buffer's instances, aligned to a power of two, each take the
/// least multiple of the alignment that holds an instance: a multiple of
/// the alignment, at least the instance size and less than the instance
/// size plus the alignment. Other buffers' instances take their size.
pub proof fn lemma_instance_stride_aligned(instance_size: usize, usage: BufferUsageFlags, min_uniform_alignment: usize)
    requires
        bits_contain(usage.bits, 0x10) ==> is_power_of_two(min_uniform_alignment)
            && instance_size + (min_uniform_alignment - 1) <= usize::MAX,
    ensures
        ({
            let stride = instance_stride(instance_size, usage, min_uniform_alignment);
            &&& bits_contain(usage.bits, 0x10) ==> stride % (min_uniform_alignment as int) == 0
                && instance_size <= stride < instance_size + min_uniform_alignment
            &&& !bits_contain(usage.bits, 0x10) ==> stride == instance_size
        }),
{
    if bits_contain(usage.bits, 0x10) {
        let a = min_uniform_alignment;
        let m: usize = (a - 1) as usize;
        let x: usize = (instance_size + m) as usize;
        let r: usize = x & !m;
        assert(r & m == 0 && r + (x & m) == x && (x & m) <= m) by (bit_vector)
            requires
                r == x & !m;
        let n = choose|n: nat| n < usize::BITS && a == #[trigger] vstd::arithmetic::power2::pow2(n);
        vstd::arithmetic::power2::lemma_pow2_pos(n);
        vstd::bits::lemma_usize_low_bits_mask_is_mod(r, n);
        assert(vstd::bits::low_bits_mask(n) as usize == m);
        assert(r % a == 0);
        assert(instance_stride(instance_size, usage, min_uniform_alignment) == r as int);
    }
}

impl BufferLayout {
    /// The layout of a buffer of `capacity` instances of `instance_size` bytes.
    pub fn new(instance_size: usize, capacity: usize, usage: BufferUsageFlags, min_uniform_alignment: usize) -> (l: BufferLayout)
        requires
            bits_contain(usage.bits, 0x10) ==> min_uniform_alignment >= 1 && instance_size + (min_uniform_alignment - 1) <= usize::MAX,
            instance_stride(instance_size, usage, min_uniform_alignment) * capacity <= usize::MAX,
        ensures
            l.usage == usage,
            l.capacity == capacity,
            l.size == instance_stride(instance_size, usage, min_uniform_alignment) * capacity,
            !bits_contain(usage.bits, 0x10) ==> l.size == instance_size * capacity,
            bits_contain(usage.bits, 0x10) && is_power_of_two(min_uniform_alignment) ==> exists|stride: int|
                l.size == stride * capacity && #[trigger] (stride % (min_uniform_alignment as int)) == 0
                && instance_size <= stride < instance_size + min_uniform_alignment,
    {
        proof {
            if bits_contain(usage.bits, 0x10) && is_power_of_two(min_uniform_alignment) || !bits_contain(usage.bits, 0x10) {
                lemma_instance_stride_aligned(instance_size, usage, min_uniform_alignment);
                let stride = instance_stride(instance_size, usage, min_uniform_alignment);
                assert(stride % (min_uniform_alignment as int) == stride % (min_uniform_alignment as int));
            }
        }
        let alignment: usize = if usage.contains(BufferUsageFlags::uniform_buffer()) { min_uniform_alignment } else { 1 };
        let stride = (instance_size + (alignment - 1)) & !(alignment - 1);
        proof {
            if !bits_contain(usage.bits, 0x10) {
                assert(alignment == 1);
                assert((instance_size + 1 - 1) as usize & !(0usize) == instance_size) by (bit_vector);
            }
        }
        BufferLayout { usage, capacity, size: stride * capacity }
    }

    /// The number of instances the buffer holds.
    pub fn capacity(&self) -> (r: usize)
        ensures
            r == self.capacity,
    {
        self.capacity
    }

    /// Whether the buffer can be described to a descriptor set: it must be a
    /// uniform buffer; the descriptor covers the whole buffer from offset 0.
    pub fn descriptor_range(&self) -> (r: Option<(u64, u64)>)
        ensures
            bits_contain(self.usage.bits, 0x10) ==> r == Some((0u64, WHOLE_SIZE)),
            !bits_contain(self.usage.bits, 0x10) ==> r is None,
    {
        if self.usage.contains(BufferUsageFlags::uniform_buffer()) {
            Some((0, WHOLE_SIZE))
        } else {
            None
        }
    }
}

} // verus!

//! The renderer: device suitability, queue families, buffer rules and the
//! frame lifecycle.
use vstd::prelude::*;
use vstd::arithmetic::power2::pow2;
use crate::vulkan::device::{QueueFamilyProperties, family_serves};
use crate::vulkan::buffer::lemma_align_up;
use crate::vulkan::error::VulkanError;

verus! {

/// The queue families the renderer needs: one for graphics, one for presenting
pub struct QueueFamilyIndices {
    /// Index of the graphics queue family
    pub graphics_family: Option<u32>,
    /// Index of the present queue family
    pub present_family: Option<u32>,
}

/// Whether both families have an index.
pub open spec fn indices_complete(q: (Option<u32>, Option<u32>)) -> bool {
    q.0 is Some && q.1 is Some
}

/// The families found after looking at family `k`: it becomes the graphics
/// family if it has graphics queues, and the present family if it has queues
/// and can present.
pub open spec fn indices_step(q: (Option<u32>, Option<u32>), p: QueueFamilyProperties, k: int) -> (Option<u32>, Option<u32>) {
    (
        if family_serves(p, 0x1) { Some(k as u32) } else { q.0 },
        if p.queue_count > 0 && p.present_support { Some(k as u32) } else { q.1 },
    )
}

/// The families found by looking at those from `k` on, stopping as soon as
/// both have an index.
pub open spec fn indices_scan(fams: Seq<QueueFamilyProperties>, k: int, q: (Option<u32>, Option<u32>)) -> (Option<u32>, Option<u32>)
    decreases fams.len() - k,
{
    if k < 0 || k >= fams.len() {
        q
    } else {
        let next = indices_step(q, fams[k], k);
        if indices_complete(next) {
            next
        } else {
            indices_scan(fams, k + 1, next)
        }
    }
}

/// Each index found names a family of the device with queues of its kind:
/// graphics queues for the graphics family, queues that can present for the
/// present family.
pub open spec fn indices_sound(fams: Seq<QueueFamilyProperties>, q: (Option<u32>, Option<u32>)) -> bool {
    &&& q.0 matches Some(i) ==> i < fams.len() && fams[i as int].queue_count > 0
        && fams[i as int].queue_flags & 0x1 == 0x1
    &&& q.1 matches Some(i) ==> i < fams.len() && fams[i as int].queue_count > 0
        && fams[i as int].present_support
}

/// Scanning the families from `k` on keeps the indices sound, and leaves a
/// family without an index only where it had none and no family from `k` on
/// has queues of its kind.
pub proof fn lemma_queue_scan(fams: Seq<QueueFamilyProperties>, k: int, q: (Option<u32>, Option<u32>))
    requires
        0 <= k,
        fams.len() <= u32::MAX,
        indices_sound(fams, q),
    ensures
        indices_sound(fams, indices_scan(fams, k, q)),
        indices_scan(fams, k, q).0 is None ==> q.0 is None
            && forall|m: int| k <= m < fams.len() ==> !((#[trigger] fams[m]).queue_count > 0 && fams[m].queue_flags & 0x1 == 0x1),
        indices_scan(fams, k, q).1 is None ==> q.1 is None
            && forall|m: int| k <= m < fams.len() ==> !((#[trigger] fams[m]).queue_count > 0 && fams[m].present_support),
    decreases fams.len() - k,
{
    if k < fams.len() {
        let next = indices_step(q, fams[k], k);
        assert((k as u32) as int == k);
        assert(indices_sound(fams, next));
        if !indices_complete(next) {
            lemma_queue_scan(fams, k + 1, next);
        }
    }
}

/// The families found for a device are sound, and a family is left without
/// an index only where no family of the device has queues of its kind.
pub proof fn lemma_queue_families_found(fams: Seq<QueueFamilyProperties>)
    requires
        fams.len() <= u32::MAX,
    ensures
        ({
            let r = indices_scan(fams, 0, (None, None));
            &&& indices_sound(fams, r)
            &&& r.0 is None <==> forall|m: int| 0 <= m < fams.len()
                ==> !((#[trigger] fams[m]).queue_count > 0 && fams[m].queue_flags & 0x1 == 0x1)
            &&& r.1 is None <==> forall|m: int| 0 <= m < fams.len()
                ==> !((#[trigger] fams[m]).queue_count > 0 && fams[m].present_support)
        }),
{
    lemma_queue_scan(fams, 0, (None, None));
    let r = indices_scan(fams, 0, (None, None));
    if let Some(i) = r.0 {
        assert(fams[i as int].queue_count > 0 && fams[i as int].queue_flags & 0x1 == 0x1);
    }
    if let Some(i) = r.1 {
        assert(fams[i as int].queue_count > 0 && fams[i as int].present_support);
    }
}

impl QueueFamilyIndices {
    /// Returns whether both queue family indices are present
    pub fn is_complete(&self) -> (r: bool)
        ensures
            r == indices_complete((self.graphics_family, self.present_family)),
    {
        self.graphics_family.is_some() && self.present_family.is_some()
    }

    /// The distinct queue family indices, graphics then present, one queue
    /// being created for each.
    pub fn unique_families(&self) -> (r: Vec<u32>)
        requires
            self.graphics_family is Some,
            self.present_family is Some,
        ensures
            r@ == (if self.graphics_family->0 == self.present_family->0 {
                seq![self.graphics_family->0]
            } else {
                seq![self.graphics_family->0, self.present_family->0]
            }),
            r@.no_duplicates(),
            r@.to_set() == set![self.graphics_family->0, self.present_family->0],
    {
        let g = match self.graphics_family {
            Some(x) => x,
            None => 0,
        };
        let p = match self.present_family {
            Some(x) => x,
            None => 0,
        };
        let mut r: Vec<u32> = Vec::new();
        r.push(g);
        if p != g {
            r.push(p);
        }
        proof {
            if p != g {
                assert(r@ == seq![g, p]);
                assert(r@.to_set() =~= set![g, p]) by {
                    assert(r@[0] == g && r@[1] == p);
                }
            } else {
                assert(r@ == seq![g]);
                assert(r@.to_set() =~= set![g, p]) by {
                    assert(r@[0] == g);
                }
            }
        }
        r
    }
}

/// Goes through a device's queue families in order, taking as graphics
/// family each one with graphics queues and as present family each one with
/// queues that can present, until both are found.
pub fn find_queue_family(families: &Vec<QueueFamilyProperties>) -> (r: QueueFamilyIndices)
    requires
        families.len() <= u32::MAX,
    ensures
        (r.graphics_family, r.present_family) == indices_scan(families@, 0, (None, None)),
{
    let mut indices = QueueFamilyIndices { graphics_family: None, present_family: None };
    let mut index: usize = 0;
    while index < families.len()
        invariant
            index <= families.len() <= u32::MAX,
            indices_scan(families@, 0, (None, None)) == indices_scan(families@, index as int, (indices.graphics_family, indices.present_family)),
        decreases families.len() - index,
    {
        let family = families[index];
        if family.queue_count > 0 && family.queue_flags & 0x1 == 0x1 {
            indices.graphics_family = Some(index as u32);
        }
        if family.queue_count > 0 && family.present_support {
            indices.present_family = Some(index as u32);
        }
        if indices.is_complete() {
            return indices;
        }
        index = index + 1;
    }
    indices
}

/// Whether a physical device suits the renderer: it has both queue families
/// and its surface offers formats and present modes (its extensions having
/// been checked before).
pub fn is_device_suitable(indices: &QueueFamilyIndices, format_count: usize, present_mode_count: usize) -> (r: bool)
    ensures
        r == (indices_complete((indices.graphics_family, indices.present_family)) && format_count > 0 && present_mode_count > 0),
{
    indices.is_complete() && format_count > 0 && present_mode_count > 0
}

/// Picks the first suitable physical device, given whether each is suitable.
pub fn pick_physical_device(suitable: &Vec<bool>) -> (r: Option<usize>)
    ensures
        r matches Some(k) ==> k < suitable.len() && suitable@[k as int] && forall|m: int| 0 <= m < k ==> !suitable@[m],
        r is None ==> forall|m: int| 0 <= m < suitable.len() ==> !suitable@[m],
{
    let mut chosen: Option<usize> = None;
    let mut i: usize = 0;
    while i < suitable.len()
        invariant
            i <= suitable.len(),
            chosen matches Some(k) ==> k < i && suitable@[k as int] && forall|m: int| 0 <= m < k ==> !suitable@[m],
            chosen is None ==> forall|m: int| 0 <= m < i ==> !suitable@[m],
        decreases suitable.len() - i,
    {
        if suitable[i] && chosen.is_none() {
            chosen = Some(i);
        }
        i = i + 1;
    }
    chosen
}

/// Instance size rounded up to the minimum offset alignment, where there is one.
pub open spec fn alignment_of(instance_size: u64, min_offset_alignment: u64) -> u64 {
    if min_offset_alignment > 0 {
        ((instance_size + min_offset_alignment - 1) as u64) & !((min_offset_alignment - 1) as u64)
    } else {
        instance_size
    }
}

/// The byte size of each instance in a buffer: the instance size rounded up
/// to the minimum offset alignment (a power of two), where it is not 0.
pub fn get_alignment(instance_size: u64, min_offset_alignment: u64) -> (r: u64)
    requires
        min_offset_alignment > 0 ==> instance_size + min_offset_alignment - 1 <= u64::MAX,
    ensures
        r == alignment_of(instance_size, min_offset_alignment),
{
    if min_offset_alignment > 0 {
        (instance_size + (min_offset_alignment - 1)) & !(min_offset_alignment - 1)
    } else {
        instance_size
    }
}

/// The byte size of each instance is the least multiple of a power-of-two
/// alignment at or above the instance size: a multiple of the alignment, at
/// least the size, and less than the size plus the alignment.
pub proof fn lemma_alignment_rounds_up(instance_size: u64, shift: u32)
    requires
        shift < 64,
        instance_size + ((1u64 << shift) - 1) <= u64::MAX,
    ensures
        ({
            let a = 1u64 << shift;
            let r = alignment_of(instance_size, a);
            &&& r % a == 0
            &&& instance_size <= r
            &&& r < instance_size + a
        }),
{
    let a: u64 = 1u64 << shift;
    let s64: u64 = shift as u64;
    assert(a == 1u64 << s64) by (bit_vector)
        requires
            shift < 64,
            s64 == shift as u64,
            a == 1u64 << shift;
    vstd::bits::lemma_u64_pow2_no_overflow(s64 as nat);
    vstd::bits::lemma_u64_shl_is_mul(1u64, s64);
    assert(a == pow2(s64 as nat));
    lemma_align_up(instance_size, shift);
    let mask: u64 = (a - 1) as u64;
    let r: u64 = ((instance_size + mask) as u64) & !mask;
    assert(alignment_of(instance_size, a) == r);
    vstd::bits::lemma_u64_low_bits_mask_is_mod(r, s64 as nat);
    assert(vstd::bits::low_bits_mask(s64 as nat) as u64 == mask);
}

/// What an uploaded buffer is used as
#[derive(Clone, Copy, Debug, PartialEq, Eq, Structural)]
pub enum BufferUsage {
    Vertex,
    Indices,
}

impl BufferUsage {
    /// The raw `VkBufferUsageFlags` of the usage.
    pub fn to_raw(self) -> (r: u32)
        ensures
            r == (match self {
                BufferUsage::Vertex => 0x80u32,
                BufferUsage::Indices => 0x40u32,
            }),
    {
        match self {
            BufferUsage::Vertex => 0x80,
            BufferUsage::Indices => 0x40,
        }
    }
}

/// Whether data of `count` items may be uploaded for the usage: a vertex
/// buffer needs at least three vertices.
pub fn upload_allowed(usage: BufferUsage, count: usize) -> (r: bool)
    ensures
        r == !(usage == BufferUsage::Vertex && count < 3),
{
    !(usage == BufferUsage::Vertex && count < 3)
}

/// Whether a model with `index_count` indices may be created: it needs at
/// least three; it then draws that many vertices.
pub fn model_allowed(index_count: usize) -> (r: bool)
    ensures
        r == (index_count >= 3),
{
    index_count >= 3
}

/// The push constant range of a pipeline, as (raw stage flags, offset,
/// size): none for a push constant type of no bytes.
pub fn push_constant_range(stage_flags: u32, size: u32) -> (r: Option<(u32, u32, u32)>)
    ensures
        size == 0 ==> r is None,
        size != 0 ==> r == Some((stage_flags, 0u32, size)),
{
    if size == 0 {
        None
    } else {
        Some((stage_flags, 0, size))
    }
}

/// Data pushed to shaders as push constants: implementors hand out the bytes
/// of their value, laid out as the shaders read them.
pub trait PushConstantData {
    fn as_bytes(&self) -> &[u8];
}

/// How a frame begins.
#[derive(Clone, Copy, Debug, PartialEq, Eq, Structural)]
pub enum FrameStart {
    /// The frame is drawn with this command buffer
    Started(u64),
    /// The swapchain is out of date or suboptimal: it is to be recreated and
    /// no frame drawn
    RecreateSwapchain,
}

/// The frame lifecycle of a renderer: whether a frame is in progress, which
/// swapchain image it draws to, and the command buffer of each image.
pub struct FrameState {
    pub is_frame_started: bool,
    pub current_image_index: usize,
    /// Raw command buffer handles, one per framebuffer
    pub command_buffers: Vec<u64>,
}

impl FrameState {
    /// No frame in progress.
    pub fn new(command_buffers: Vec<u64>) -> (s: FrameState)
        ensures
            !s.is_frame_started,
            s.current_image_index == 0,
            s.command_buffers@ == command_buffers@,
    {
        FrameState { is_frame_started: false, current_image_index: 0, command_buffers }
    }

    /// Begins a frame, given the result of acquiring the next swapchain image
    /// (its index, and whether the swapchain is suboptimal): a failure or a
    /// suboptimal swapchain asks for the swapchain to be recreated; otherwise
    /// the frame starts on the image's command buffer.
    pub fn begin_frame(&mut self, acquired: Result<(u32, bool), VulkanError>) -> (r: FrameStart)
        requires
            !old(self).is_frame_started,
            acquired matches Ok((i, false)) ==> i < old(self).command_buffers.len(),
        ensures
            final(self).command_buffers@ == old(self).command_buffers@,
            match acquired {
                Ok((i, false)) => r == FrameStart::Started(old(self).command_buffers@[i as int])
                    && final(self).is_frame_started && final(self).current_image_index == i,
                _ => r == FrameStart::RecreateSwapchain && *final(self) == *old(self),
            },
    {
        match acquired {
            Err(_) => FrameStart::RecreateSwapchain,
            Ok((index, suboptimal)) => {
                if suboptimal {
                    return FrameStart::RecreateSwapchain;
                }
                self.current_image_index = index as usize;
                self.is_frame_started = true;
                FrameStart::Started(self.get_current_command_buffer())
            },
        }
    }

    /// The command buffer of the frame in progress.
    pub fn get_current_command_buffer(&self) -> (cb: u64)
        requires
            self.is_frame_started,
            self.current_image_index < self.command_buffers.len(),
        ensures
            cb == self.command_buffers@[self.current_image_index as int],
    {
        self.command_buffers[self.current_image_index]
    }

    /// Whether a render pass may be begun or ended on the command buffer: a
    /// frame must be in progress, and the command buffer be its own.
    pub fn render_pass_allowed(&self, command_buffer: u64) -> (r: bool)
        ensures
            r == (self.is_frame_started && self.current_image_index < self.command_buffers.len()
                && command_buffer == self.command_buffers@[self.current_image_index as int]),
    {
        self.is_frame_started && self.current_image_index < self.command_buffers.len()
            && command_buffer == self.command_buffers[self.current_image_index]
    }

    /// Ends the frame in progress, given the result of submitting it (whether
    /// the swapchain is suboptimal): returns whether the swapchain is to be
    /// recreated, which a failure or a suboptimal swapchain asks for.
    pub fn end_frame(&mut self, submitted: Result<bool, VulkanError>) -> (recreate: bool)
        requires
            old(self).is_frame_started,
        ensures
            !final(self).is_frame_started,
            final(self).current_image_index == old(self).current_image_index,
            final(self).command_buffers@ == old(self).command_buffers@,
            recreate == !(submitted == Ok::<bool, VulkanError>(false)),
    {
        let recreate = match submitted {
            Err(_) => true,
            Ok(suboptimal) => suboptimal,
        };
        self.is_frame_started = false;
        recreate
    }

    /// Whether the command buffers must be allocated anew after the swapchain
    /// was recreated with `framebuffer_count` framebuffers.
    pub fn needs_new_command_buffers(&self, framebuffer_count: usize) -> (r: bool)
        ensures
            r == (framebuffer_count != self.command_buffers.len()),
    {
        framebuffer_count != self.command_buffers.len()
    }

    /// Replaces the command buffers, after allocating them anew.
    pub fn set_command_buffers(&mut self, command_buffers: Vec<u64>)
        ensures
            final(self).command_buffers@ == command_buffers@,
            final(self).is_frame_started == old(self).is_frame_started,
            final(self).current_image_index == old(self).current_image_index,
    {
        self.command_buffers = command_buffers;
    }
}

/// Whether the swapchain can be recreated for a window of this size: a
/// minimised window, of no width or height, cannot have one.
pub fn swapchain_recreatable(width: u32, height: u32) -> (r: bool)
    ensures
        r == (width != 0 && height != 0),
{
    width != 0 && height != 0
}

} // verus!

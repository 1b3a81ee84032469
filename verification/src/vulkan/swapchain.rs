//! Swapchain configuration: surface format, present mode, extent and image
//! count choices, the device checks a swapchain or surface needs, and the
//! per-frame synchronisation bookkeeping.
use vstd::prelude::*;
use crate::vulkan::device::{DeviceExtension, LogicalDeviceError, QueueFamily, family_indices};
use crate::vulkan::error::VulkanError;
use crate::vulkan::flags::QueueFlags;

verus! {

/// Raw `VkFormat` values of the colour formats.
pub const FORMAT_B8G8R8A8_UNORM: i32 = 44;
pub const FORMAT_B8G8R8A8_SRGB: i32 = 50;
/// Raw `VkColorSpaceKHR` value of the sRGB non-linear colour space.
pub const COLOR_SPACE_SRGB_NONLINEAR: i32 = 0;
/// Raw `VkPresentModeKHR` values.
pub const PRESENT_MODE_IMMEDIATE: i32 = 0;
pub const PRESENT_MODE_MAILBOX: i32 = 1;
pub const PRESENT_MODE_FIFO: i32 = 2;
pub const PRESENT_MODE_FIFO_RELAXED: i32 = 3;
/// Number of frames that may be in flight at once.
pub const MAX_FRAMES_IN_FLIGHT: usize = 2;

/// Colour formats a swapchain may prefer
#[derive(Clone, Copy, Debug, PartialEq, Eq, Structural)]
pub enum ColorFormat {
    Srgb,
    Unorm,
}

/// The raw `VkFormat` of a colour format.
pub open spec fn color_format_raw(c: ColorFormat) -> i32 {
    match c {
        ColorFormat::Srgb => FORMAT_B8G8R8A8_SRGB,
        ColorFormat::Unorm => FORMAT_B8G8R8A8_UNORM,
    }
}

impl ColorFormat {
    /// The raw `VkFormat` of the colour format.
    pub fn to_raw(self) -> (r: i32)
        ensures
            r == color_format_raw(self),
    {
        match self {
            ColorFormat::Srgb => FORMAT_B8G8R8A8_SRGB,
            ColorFormat::Unorm => FORMAT_B8G8R8A8_UNORM,
        }
    }
}

/// Present modes a swapchain may prefer
#[derive(Clone, Copy, Debug, PartialEq, Eq, Structural)]
pub enum PresentMode {
    Immediate,
    Mailbox,
    Fifo,
    FifoRelaxed,
}

/// The raw `VkPresentModeKHR` of a present mode.
pub open spec fn present_mode_raw(m: PresentMode) -> i32 {
    match m {
        PresentMode::Immediate => PRESENT_MODE_IMMEDIATE,
        PresentMode::Mailbox => PRESENT_MODE_MAILBOX,
        PresentMode::Fifo => PRESENT_MODE_FIFO,
        PresentMode::FifoRelaxed => PRESENT_MODE_FIFO_RELAXED,
    }
}

impl PresentMode {
    /// The raw `VkPresentModeKHR` of the present mode.
    pub fn to_raw(self) -> (r: i32)
        ensures
            r == present_mode_raw(self),
    {
        match self {
            PresentMode::Immediate => PRESENT_MODE_IMMEDIATE,
            PresentMode::Mailbox => PRESENT_MODE_MAILBOX,
            PresentMode::Fifo => PRESENT_MODE_FIFO,
            PresentMode::FifoRelaxed => PRESENT_MODE_FIFO_RELAXED,
        }
    }
}

/// A format and colour space a surface supports.
#[derive(Clone, Copy, Debug, PartialEq, Eq, Structural)]
pub struct SurfaceFormat {
    /// Raw `VkFormat`
    pub format: i32,
    /// Raw `VkColorSpaceKHR`
    pub color_space: i32,
}

/// A two-dimensional extent in pixels.
#[derive(Clone, Copy, Debug, PartialEq, Eq, Structural)]
pub struct Extent2D {
    pub width: u32,
    pub height: u32,
}

/// What a surface reports of the swapchains it can have.
#[derive(Clone, Copy, Debug, PartialEq, Eq, Structural)]
pub struct SurfaceCapabilities {
    pub min_image_count: u32,
    /// 0 where there is no limit
    pub max_image_count: u32,
    /// Width `u32::MAX` where the swapchain decides the extent
    pub current_extent: Extent2D,
    pub min_image_extent: Extent2D,
    pub max_image_extent: Extent2D,
}

/// The first available format at or after `k` that has the raw format and
/// the sRGB non-linear colour space.
pub open spec fn first_format_match(available: Seq<SurfaceFormat>, format: i32, k: int) -> Option<int>
    decreases available.len() - k,
{
    if k < 0 || k >= available.len() {
        None
    } else if available[k].format == format && available[k].color_space == COLOR_SPACE_SRGB_NONLINEAR {
        Some(k)
    } else {
        first_format_match(available, format, k + 1)
    }
}

/// The search for a format from `k` on lands on the first available format
/// from `k` on that has the raw format in the sRGB non-linear colour space,
/// and finds none only where no format from `k` on has both.
proof fn lemma_format_search(available: Seq<SurfaceFormat>, format: i32, k: int)
    requires
        0 <= k,
    ensures
        first_format_match(available, format, k) matches Some(i) ==> k <= i < available.len()
            && available[i].format == format && available[i].color_space == COLOR_SPACE_SRGB_NONLINEAR
            && forall|j: int| k <= j < i ==> !((#[trigger] available[j]).format == format
                && available[j].color_space == COLOR_SPACE_SRGB_NONLINEAR),
        first_format_match(available, format, k) is None ==> forall|j: int| k <= j < available.len()
            ==> !((#[trigger] available[j]).format == format && available[j].color_space == COLOR_SPACE_SRGB_NONLINEAR),
    decreases available.len() - k,
{
    if k < available.len() {
        lemma_format_search(available, format, k + 1);
    }
}

/// The format chosen is one the surface offers: the first offered with the
/// wanted raw format in the sRGB non-linear colour space where one is, and
/// otherwise the first offered.
pub proof fn lemma_chosen_format_is_first_match(available: Seq<SurfaceFormat>, format: i32)
    requires
        available.len() > 0,
    ensures
        ({
            let r = chosen_format(available, format);
            &&& (exists|k: int| 0 <= k < available.len() && (#[trigger] available[k]).format == format
                && available[k].color_space == COLOR_SPACE_SRGB_NONLINEAR) ==> exists|k: int| 0 <= k < available.len()
                && r == #[trigger] available[k] && r.format == format && r.color_space == COLOR_SPACE_SRGB_NONLINEAR
                && forall|j: int| 0 <= j < k ==> !((#[trigger] available[j]).format == format
                    && available[j].color_space == COLOR_SPACE_SRGB_NONLINEAR)
            &&& !(exists|k: int| 0 <= k < available.len() && (#[trigger] available[k]).format == format
                && available[k].color_space == COLOR_SPACE_SRGB_NONLINEAR) ==> r == available[0]
        }),
{
    lemma_format_search(available, format, 0);
    if let Some(i) = first_format_match(available, format, 0) {
        assert(chosen_format(available, format) == available[i]);
    }
}

/// The format chosen among the available ones: the first with the wanted raw
/// format in the sRGB non-linear colour space, else the first available.
pub open spec fn chosen_format(available: Seq<SurfaceFormat>, format: i32) -> SurfaceFormat {
    match first_format_match(available, format, 0) {
        Some(k) => available[k],
        None => available[0],
    }
}

/// Chooses among the available surface formats: the first with the raw
/// format `format` in the sRGB non-linear colour space, else the first one.
pub fn choose_format_for(available: &[SurfaceFormat], format: i32) -> (r: SurfaceFormat)
    requires
        available.len() > 0,
    ensures
        r == chosen_format(available@, format),
{
    let mut k: usize = 0;
    while k < available.len()
        invariant
            k <= available.len(),
            first_format_match(available@, format, 0) == first_format_match(available@, format, k as int),
        decreases available.len() - k,
    {
        if available[k].format == format && available[k].color_space == COLOR_SPACE_SRGB_NONLINEAR {
            return available[k];
        }
        k = k + 1;
    }
    available[0]
}

/// The present mode chosen: `mode` where available, else FIFO (which every
/// surface supports).
pub open spec fn chosen_present_mode(available: Seq<i32>, mode: i32) -> i32 {
    if available.contains(mode) { mode } else { PRESENT_MODE_FIFO }
}

/// The mode chosen is the one asked for where the surface offers it, and
/// FIFO (which every surface supports) where it does not, whatever else the
/// surface offers.
pub proof fn lemma_present_mode_falls_back_to_fifo(available: Seq<i32>, mode: i32)
    ensures
        available.contains(mode) ==> chosen_present_mode(available, mode) == mode,
        !available.contains(mode) ==> chosen_present_mode(available, mode) == PRESENT_MODE_FIFO,
        chosen_present_mode(available, mode) == mode || chosen_present_mode(available, mode) == PRESENT_MODE_FIFO,
{
}

/// Chooses `mode` where the surface supports it, else FIFO.
pub fn choose_present_mode_for(available: &[i32], mode: i32) -> (r: i32)
    ensures
        r == chosen_present_mode(available@, mode),
        available@.contains(mode) ==> r == mode,
        !available@.contains(mode) ==> r == PRESENT_MODE_FIFO,
{
    let mut k: usize = 0;
    while k < available.len()
        invariant
            k <= available.len(),
            forall|m: int| 0 <= m < k ==> available@[m] != mode,
        decreases available.len() - k,
    {
        if available[k] == mode {
            assert(available@.contains(mode));
            return mode;
        }
        k = k + 1;
    }
    PRESENT_MODE_FIFO
}

/// `v` clamped into `[lo, hi]`.
pub open spec fn clamp_spec(v: u32, lo: u32, hi: u32) -> u32 {
    if v < lo { lo } else if v > hi { hi } else { v }
}

/// `v` clamped into `[lo, hi]`, with `lo <= hi`.
pub fn clamp_u32(v: u32, lo: u32, hi: u32) -> (r: u32)
    requires
        lo <= hi,
    ensures
        r == clamp_spec(v, lo, hi),
{
    if v < lo {
        lo
    } else if v > hi {
        hi
    } else {
        v
    }
}

/// The extent chosen: the surface's current extent, unless its width is
/// `u32::MAX`, in which case the default extent clamped into the surface's
/// limits.
pub open spec fn chosen_extent(caps: SurfaceCapabilities, default_width: u32, default_height: u32) -> Extent2D {
    if caps.current_extent.width != u32::MAX {
        caps.current_extent
    } else {
        Extent2D {
            width: clamp_spec(default_width, caps.min_image_extent.width, caps.max_image_extent.width),
            height: clamp_spec(default_height, caps.min_image_extent.height, caps.max_image_extent.height),
        }
    }
}

/// The limits of a surface that lets the swapchain decide the extent are ordered.
pub open spec fn extent_limits_ordered(caps: SurfaceCapabilities) -> bool {
    caps.current_extent.width == u32::MAX ==> caps.min_image_extent.width <= caps.max_image_extent.width
        && caps.min_image_extent.height <= caps.max_image_extent.height
}

/// The extent chosen is the surface's current one where the surface sets
/// it; otherwise each side is the default where it lies within the
/// surface's limits, and the nearest limit where it does not.
pub proof fn lemma_chosen_extent_within_limits(caps: SurfaceCapabilities, default_width: u32, default_height: u32)
    requires
        extent_limits_ordered(caps),
    ensures
        ({
            let r = chosen_extent(caps, default_width, default_height);
            let lo = caps.min_image_extent;
            let hi = caps.max_image_extent;
            &&& caps.current_extent.width != u32::MAX ==> r == caps.current_extent
            &&& caps.current_extent.width == u32::MAX ==> {
                &&& lo.width <= r.width <= hi.width
                &&& lo.height <= r.height <= hi.height
                &&& (lo.width <= default_width <= hi.width ==> r.width == default_width)
                &&& (default_width < lo.width ==> r.width == lo.width)
                &&& (default_width > hi.width ==> r.width == hi.width)
                &&& (lo.height <= default_height <= hi.height ==> r.height == default_height)
                &&& (default_height < lo.height ==> r.height == lo.height)
                &&& (default_height > hi.height ==> r.height == hi.height)
            }
        }),
{
}

/// The number of images chosen is one more than the surface's minimum, but
/// never more than its maximum where it has one (a maximum of 0 being none).
pub proof fn lemma_chosen_image_count_bounds(caps: SurfaceCapabilities)
    requires
        caps.min_image_count < u32::MAX,
    ensures
        ({
            let r = chosen_image_count(caps);
            &&& (caps.max_image_count == 0 || caps.min_image_count + 1 <= caps.max_image_count)
                ==> r == caps.min_image_count + 1
            &&& (caps.max_image_count > 0 && caps.min_image_count + 1 > caps.max_image_count)
                ==> r == caps.max_image_count
            &&& caps.max_image_count > 0 ==> r <= caps.max_image_count
        }),
{
}

/// Chooses the swapchain extent: the surface's current extent, or where the
/// surface lets the swapchain decide, the default clamped into its limits.
pub fn choose_extent_for(caps: &SurfaceCapabilities, default_width: u32, default_height: u32) -> (r: Extent2D)
    requires
        extent_limits_ordered(*caps),
    ensures
        r == chosen_extent(*caps, default_width, default_height),
{
    if caps.current_extent.width != u32::MAX {
        caps.current_extent
    } else {
        Extent2D {
            width: clamp_u32(default_width, caps.min_image_extent.width, caps.max_image_extent.width),
            height: clamp_u32(default_height, caps.min_image_extent.height, caps.max_image_extent.height),
        }
    }
}

/// The number of swapchain images: one more than the surface's minimum,
/// capped by its maximum where it has one.
pub open spec fn chosen_image_count(caps: SurfaceCapabilities) -> u32 {
    if caps.max_image_count > 0 && caps.min_image_count + 1 > caps.max_image_count {
        caps.max_image_count
    } else {
        (caps.min_image_count + 1) as u32
    }
}

/// Chooses the number of swapchain images.
pub fn choose_image_count(caps: &SurfaceCapabilities) -> (r: u32)
    requires
        caps.min_image_count < u32::MAX,
    ensures
        r == chosen_image_count(*caps),
{
    let image_count = caps.min_image_count + 1;
    if caps.max_image_count > 0 && image_count > caps.max_image_count {
        caps.max_image_count
    } else {
        image_count
    }
}

/// Chooses the sRGB format among the available ones, else the first.
pub fn choose_srgb_format(available: &[SurfaceFormat]) -> (r: SurfaceFormat)
    requires
        available.len() > 0,
    ensures
        r == chosen_format(available@, FORMAT_B8G8R8A8_SRGB),
{
    choose_format_for(available, FORMAT_B8G8R8A8_SRGB)
}

/// Chooses mailbox presentation where available, else FIFO.
pub fn choose_mailbox_present_mode(available: &[i32]) -> (r: i32)
    ensures
        r == chosen_present_mode(available@, PRESENT_MODE_MAILBOX),
        available@.contains(PRESENT_MODE_MAILBOX) ==> r == PRESENT_MODE_MAILBOX,
        !available@.contains(PRESENT_MODE_MAILBOX) ==> r == PRESENT_MODE_FIFO,
{
    choose_present_mode_for(available, PRESENT_MODE_MAILBOX)
}

/// Errors of swapchain creation and use
#[derive(Clone, Copy, Debug, PartialEq, Eq, Structural)]
pub enum SwapchainError {
    /// Failed to create the Vulkan swapchain
    CantCreate(VulkanError),
    /// Failed to get the images created with the Vulkan swapchain
    ImageFetchFail,
    /// The device does not have the swapchain extension enabled
    DeviceNotCapable,
    /// The device was not created with a queue family of this type
    MissingQueueFamily(QueueFlags),
    /// Failed to create a Vulkan render pass
    CantCreateRenderPass(VulkanError),
    /// Failed to create a Vulkan framebuffer
    CantCreateFramebuffer(VulkanError),
    /// Failed to create a Vulkan image view
    CantCreateImageView(VulkanError),
    /// The swapchain is suboptimal for the surface and should be recreated
    Suboptimal,
    /// The graphics queue is required but the device doesn't have one
    DeviceMissingGraphicsQueue,
    /// An error of the logical device
    DeviceError(LogicalDeviceError),
}

/// Whether some queue family has exactly the graphics type.
pub open spec fn has_graphics_family(families: Seq<QueueFamily>) -> bool {
    exists|i: int| 0 <= i < families.len() && (#[trigger] families[i]).ty.bits == 0x1
}

/// Finds the first queue family whose type is exactly graphics.
pub fn find_graphics_family(families: &[QueueFamily]) -> (r: Option<usize>)
    ensures
        r matches Some(k) ==> k < families.len() && families@[k as int].ty.bits == 0x1
            && forall|m: int| 0 <= m < k ==> (#[trigger] families@[m]).ty.bits != 0x1,
        r is None <==> !has_graphics_family(families@),
{
    let mut k: usize = 0;
    while k < families.len()
        invariant
            k <= families.len(),
            forall|m: int| 0 <= m < k ==> (#[trigger] families@[m]).ty.bits != 0x1,
        decreases families.len() - k,
    {
        if families[k].ty.bits == 0x1 {
            return Some(k);
        }
        k = k + 1;
    }
    None
}

/// Whether the extension list enables the swapchain extension.
pub fn has_swapchain_extension(extensions: &[DeviceExtension]) -> (r: bool)
    ensures
        r == extensions@.contains(DeviceExtension::Swapchain),
{
    let mut k: usize = 0;
    while k < extensions.len()
        invariant
            k <= extensions.len(),
            forall|m: int| 0 <= m < k ==> extensions@[m] != DeviceExtension::Swapchain,
        decreases extensions.len() - k,
    {
        if extensions[k] == DeviceExtension::Swapchain {
            assert(extensions@[k as int] == DeviceExtension::Swapchain);
            return true;
        }
        k = k + 1;
    }
    false
}

/// Collects the preferences a swapchain is built with.
#[derive(Clone, Copy, Debug, PartialEq, Eq, Structural)]
pub struct SwapchainBuilder {
    pub preferred_color_format: ColorFormat,
    pub preferred_present_mode: PresentMode,
}

impl SwapchainBuilder {
    /// Creates a builder preferring the UNORM colour format and FIFO presentation.
    pub fn new() -> (b: SwapchainBuilder)
        ensures
            b.preferred_color_format == ColorFormat::Unorm,
            b.preferred_present_mode == PresentMode::Fifo,
    {
        SwapchainBuilder { preferred_color_format: ColorFormat::Unorm, preferred_present_mode: PresentMode::Fifo }
    }

    /// Sets the preferred colour format
    pub fn preferred_color_format(self, color_format: ColorFormat) -> (b: SwapchainBuilder)
        ensures
            b == (SwapchainBuilder { preferred_color_format: color_format, ..self }),
    {
        SwapchainBuilder { preferred_color_format: color_format, preferred_present_mode: self.preferred_present_mode }
    }

    /// Sets the preferred present mode
    pub fn preferred_present_mode(self, present_mode: PresentMode) -> (b: SwapchainBuilder)
        ensures
            b == (SwapchainBuilder { preferred_present_mode: present_mode, ..self }),
    {
        SwapchainBuilder { preferred_color_format: self.preferred_color_format, preferred_present_mode: present_mode }
    }

    /// Checks that a device can have a swapchain: the swapchain extension must
    /// be enabled and a queue family must be of the graphics type.
    pub fn check_device(&self, extensions: &[DeviceExtension], families: &[QueueFamily]) -> (r: Result<(), SwapchainError>)
        ensures
            !extensions@.contains(DeviceExtension::Swapchain) ==> r == Err::<(), SwapchainError>(SwapchainError::DeviceNotCapable),
            extensions@.contains(DeviceExtension::Swapchain) && !has_graphics_family(families@)
                ==> r == Err::<(), SwapchainError>(SwapchainError::MissingQueueFamily(QueueFlags { bits: 0x1 })),
            extensions@.contains(DeviceExtension::Swapchain) && has_graphics_family(families@) ==> r is Ok,
    {
        if !has_swapchain_extension(extensions) {
            return Err(SwapchainError::DeviceNotCapable);
        }
        if find_graphics_family(families).is_none() {
            return Err(SwapchainError::MissingQueueFamily(QueueFlags::graphics()));
        }
        Ok(())
    }

    /// Chooses the surface format: the preferred colour format in the sRGB
    /// non-linear colour space where available, else the first available.
    pub fn choose_format(&self, available: &[SurfaceFormat]) -> (r: SurfaceFormat)
        requires
            available.len() > 0,
        ensures
            r == chosen_format(available@, color_format_raw(self.preferred_color_format)),
    {
        choose_format_for(available, self.preferred_color_format.to_raw())
    }

    /// Chooses the present mode: the preferred one where available, else FIFO.
    pub fn choose_present_mode(&self, available: &[i32]) -> (r: i32)
        ensures
            r == chosen_present_mode(available@, present_mode_raw(self.preferred_present_mode)),
            available@.contains(present_mode_raw(self.preferred_present_mode)) ==> r == present_mode_raw(self.preferred_present_mode),
            !available@.contains(present_mode_raw(self.preferred_present_mode)) ==> r == PRESENT_MODE_FIFO,
    {
        choose_present_mode_for(available, self.preferred_present_mode.to_raw())
    }

    /// Chooses the extent: the surface's current one, or 800 by 600 clamped
    /// into the surface's limits.
    pub fn choose_extent(&self, caps: &SurfaceCapabilities) -> (r: Extent2D)
        requires
            extent_limits_ordered(*caps),
        ensures
            r == chosen_extent(*caps, 800, 600),
    {
        choose_extent_for(caps, 800, 600)
    }
}

/// The queue family indices a swapchain shares its images with: those of
/// every family of the device, in order.
pub fn swapchain_queue_family_indices(families: &[QueueFamily]) -> (r: Vec<u32>)
    requires
        forall|i: int| 0 <= i < families.len() ==> (#[trigger] families@[i]).index is Some,
    ensures
        r@ == family_indices(families@),
{
    let mut out: Vec<u32> = Vec::new();
    let mut i: usize = 0;
    while i < families.len()
        invariant
            i <= families.len(),
            forall|k: int| 0 <= k < families.len() ==> (#[trigger] families@[k]).index is Some,
            out@ == family_indices(families@).take(i as int),
        decreases families.len() - i,
    {
        let idx = match families[i].index {
            Some(x) => x,
            None => 0,
        };
        out.push(idx);
        assert(family_indices(families@).take(i + 1) == family_indices(families@).take(i as int).push(idx));
        i = i + 1;
    }
    assert(family_indices(families@).take(i as int) == family_indices(families@));
    out
}

/// How the swapchain's images are shared between the graphics and the
/// present queue families: concurrently, by both, where they differ;
/// exclusively, naming no family, where they are the same. The first of the
/// pair says whether the sharing is concurrent.
pub fn swapchain_sharing(graphics_family: u32, present_family: u32) -> (r: (bool, Vec<u32>))
    ensures
        graphics_family != present_family ==> r.0 && r.1@ == seq![graphics_family, present_family],
        graphics_family == present_family ==> !r.0 && r.1@ == Seq::<u32>::empty(),
{
    if graphics_family != present_family {
        let mut families: Vec<u32> = Vec::new();
        families.push(graphics_family);
        families.push(present_family);
        (true, families)
    } else {
        (false, Vec::new())
    }
}

/// The outcome of acquiring the next image: its index, or
/// [SwapchainError::Suboptimal] where the swapchain should be recreated.
pub fn acquired_image(index: u32, suboptimal: bool) -> (r: Result<usize, SwapchainError>)
    ensures
        suboptimal ==> r == Err::<usize, SwapchainError>(SwapchainError::Suboptimal),
        !suboptimal ==> r == Ok::<usize, SwapchainError>(index as usize),
{
    if suboptimal {
        Err(SwapchainError::Suboptimal)
    } else {
        Ok(index as usize)
    }
}

/// The per-frame synchronisation state of a swapchain: which frame slot is
/// in use, the fence of each frame slot, and for each swapchain image the
/// fence of the frame that last drew to it (0 for none).
pub struct FrameSync {
    pub current_frame: usize,
    pub in_flight_fences: Vec<u64>,
    pub images_in_flight: Vec<u64>,
}

impl FrameSync {
    /// Well-formed: one fence per frame slot, and the current slot among them.
    pub open spec fn wf(&self) -> bool {
        &&& self.in_flight_fences.len() == MAX_FRAMES_IN_FLIGHT
        &&& self.current_frame < MAX_FRAMES_IN_FLIGHT
    }

    /// The synchronisation state of a new swapchain: frame slot 0, no image in flight.
    pub fn new(in_flight_fences: Vec<u64>, image_count: usize) -> (s: FrameSync)
        requires
            in_flight_fences.len() == MAX_FRAMES_IN_FLIGHT,
        ensures
            s.wf(),
            s.current_frame == 0,
            s.in_flight_fences@ == in_flight_fences@,
            s.images_in_flight@ == Seq::new(image_count as nat, |i: int| 0u64),
    {
        let mut images: Vec<u64> = Vec::new();
        let mut i: usize = 0;
        while i < image_count
            invariant
                i <= image_count,
                images@ == Seq::new(i as nat, |k: int| 0u64),
            decreases image_count - i,
        {
            images.push(0);
            assert(images@ =~= Seq::new((i + 1) as nat, |k: int| 0u64));
            i = i + 1;
        }
        FrameSync { current_frame: 0, in_flight_fences, images_in_flight: images }
    }

    /// The fence to wait on before drawing to image `index`: that of the
    /// frame that last drew to it, if any.
    pub fn image_fence_to_wait(&self, index: usize) -> (r: Option<u64>)
        requires
            index < self.images_in_flight.len(),
        ensures
            self.images_in_flight@[index as int] != 0 ==> r == Some(self.images_in_flight@[index as int]),
            self.images_in_flight@[index as int] == 0 ==> r is None,
    {
        let f = self.images_in_flight[index];
        if f != 0 {
            Some(f)
        } else {
            None
        }
    }

    /// Records that the current frame draws to image `index`, returning the
    /// fence of the current frame.
    pub fn mark_image_in_flight(&mut self, index: usize) -> (fence: u64)
        requires
            old(self).wf(),
            index < old(self).images_in_flight.len(),
        ensures
            final(self).wf(),
            fence == old(self).in_flight_fences@[old(self).current_frame as int],
            final(self).images_in_flight@ == old(self).images_in_flight@.update(index as int, fence),
            final(self).current_frame == old(self).current_frame,
            final(self).in_flight_fences@ == old(self).in_flight_fences@,
    {
        let fence = self.in_flight_fences[self.current_frame];
        self.images_in_flight.set(index, fence);
        fence
    }

    /// Moves on to the next frame slot, after the last wrapping to the first.
    pub fn advance_frame(&mut self)
        requires
            old(self).wf(),
        ensures
            final(self).wf(),
            final(self).current_frame == (old(self).current_frame + 1) % (MAX_FRAMES_IN_FLIGHT as int),
            final(self).in_flight_fences@ == old(self).in_flight_fences@,
            final(self).images_in_flight@ == old(self).images_in_flight@,
    {
        self.current_frame = (self.current_frame + 1) % MAX_FRAMES_IN_FLIGHT;
    }
}

/// Advancing through every frame slot returns to the slot one started from.
pub proof fn lemma_frame_slots_cycle(start: int)
    requires
        0 <= start < MAX_FRAMES_IN_FLIGHT,
    ensures
        ((start + 1) % (MAX_FRAMES_IN_FLIGHT as int) + 1) % (MAX_FRAMES_IN_FLIGHT as int) == start,
{
}

/// Kinds of surface queries
#[derive(Clone, Copy, Debug, PartialEq, Eq, Structural)]
pub enum SurfaceQueryType {
    Capabilities,
    Format,
    PresentModes,
    SurfaceSupport,
}

/// Errors of surface creation and queries
#[derive(Clone, Copy, Debug, PartialEq, Eq, Structural)]
pub enum SurfaceError {
    /// The device does not have the swapchain extension, or its graphics
    /// family cannot present to the surface
    DeviceNotCapable,
    /// The device was not created with a queue family of this type
    MissingQueueFamily(QueueFlags),
    /// Failed to create a surface for Windows
    CantCreateWin32Surface(VulkanError),
    /// Failed to create a surface for Linux
    CantCreateXlibSurface(VulkanError),
    /// Failed to query the surface for properties
    FailedQuery(SurfaceQueryType),
}

/// Checks that a surface can be created for a device: the swapchain
/// extension must be enabled and a queue family must be of the graphics type.
/// Returns the position of that graphics family.
pub fn check_surface_device(extensions: &[DeviceExtension], families: &[QueueFamily]) -> (r: Result<usize, SurfaceError>)
    ensures
        !extensions@.contains(DeviceExtension::Swapchain) ==> r == Err::<usize, SurfaceError>(SurfaceError::DeviceNotCapable),
        extensions@.contains(DeviceExtension::Swapchain) && !has_graphics_family(families@)
            ==> r == Err::<usize, SurfaceError>(SurfaceError::MissingQueueFamily(QueueFlags { bits: 0x1 })),
        extensions@.contains(DeviceExtension::Swapchain) && has_graphics_family(families@) ==> (r matches Ok(k)
            && k < families.len() && families@[k as int].ty.bits == 0x1
            && forall|m: int| 0 <= m < k ==> (#[trigger] families@[m]).ty.bits != 0x1),
{
    if !has_swapchain_extension(extensions) {
        return Err(SurfaceError::DeviceNotCapable);
    }
    match find_graphics_family(families) {
        None => Err(SurfaceError::MissingQueueFamily(QueueFlags::graphics())),
        Some(k) => Ok(k),
    }
}

} // verus!

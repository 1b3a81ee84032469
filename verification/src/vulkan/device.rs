//! Physical device selection: queue families, device extensions, memory
//! types and formats.
use vstd::prelude::*;
use crate::vulkan::error::VulkanError;
use crate::vulkan::flags::{bits_contain, MemoryPropertyFlags, QueueFlags};
use crate::vulkan::utils::{contains_required, missing_names, names_view};

verus! {

/// Vulkan device extensions that the engine supports.
#[derive(Clone, Copy, Debug, PartialEq, Eq, Structural)]
pub enum DeviceExtension {
    Swapchain,
}

/// The Vulkan name of a device extension.
pub open spec fn extension_name(ext: DeviceExtension) -> Seq<char> {
    match ext {
        DeviceExtension::Swapchain => "VK_KHR_swapchain"@,
    }
}

impl DeviceExtension {
    /// The Vulkan name of the extension.
    pub fn name(&self) -> (s: String)
        ensures
            s@ == extension_name(*self),
    {
        match self {
            DeviceExtension::Swapchain => "VK_KHR_swapchain".to_owned(),
        }
    }
}

/// Wraps the index of a queue family of a given type.
#[derive(Clone, Copy, Debug)]
pub struct QueueFamily {
    /// Type of the queue family
    pub ty: QueueFlags,
    /// Index on the device where the queue family is
    pub index: Option<u32>,
}

impl QueueFamily {
    /// Creates a new [QueueFamily] of the type, with no index.
    pub fn new(ty: QueueFlags) -> (f: QueueFamily)
        ensures
            f.ty == ty,
            f.index is None,
    {
        QueueFamily { ty, index: None }
    }
}

/// What a physical device reports of one of its queue families.
#[derive(Clone, Copy, Debug, PartialEq, Eq, Structural)]
pub struct QueueFamilyProperties {
    /// Number of queues in the family
    pub queue_count: u32,
    /// Raw queue flags of the family
    pub queue_flags: u32,
    /// Whether the family can present to the surface in use
    pub present_support: bool,
}

/// Whether a device queue family serves queues of type `ty`.
pub open spec fn family_serves(p: QueueFamilyProperties, ty: u32) -> bool {
    p.queue_count > 0 && bits_contain(p.queue_flags, ty)
}

/// The index of the first family at or after `k` that serves `ty`.
pub open spec fn first_serving_from(fams: Seq<QueueFamilyProperties>, ty: u32, k: int) -> Option<int>
    decreases fams.len() - k,
{
    if k < 0 || k >= fams.len() {
        None
    } else if family_serves(fams[k], ty) {
        Some(k)
    } else {
        first_serving_from(fams, ty, k + 1)
    }
}

/// The index a requested family gets from a device's families: that of the
/// first family that serves its type, or none where no family does.
pub open spec fn resolved_index(fams: Seq<QueueFamilyProperties>, fam: QueueFamily) -> Option<u32> {
    match first_serving_from(fams, fam.ty.bits, 0) {
        Some(j) => Some(j as u32),
        None => None,
    }
}

/// Where `first_serving_from` lands, it lands on a serving family in range.
pub proof fn lemma_first_serving_in_range(fams: Seq<QueueFamilyProperties>, ty: u32, k: int)
    ensures
        first_serving_from(fams, ty, k) matches Some(j) ==> k <= j < fams.len() && family_serves(fams[j], ty)
            && forall|m: int| k <= m < j ==> !family_serves(#[trigger] fams[m], ty),
        first_serving_from(fams, ty, k) is None && 0 <= k ==> forall|m: int| k <= m < fams.len() ==> !family_serves(#[trigger] fams[m], ty),
        first_serving_from(fams, ty, k) matches Some(j) ==> fams[j].queue_count > 0 && fams[j].queue_flags & ty == ty
            && forall|m: int| k <= m < j ==> !((#[trigger] fams[m]).queue_count > 0 && fams[m].queue_flags & ty == ty),
        first_serving_from(fams, ty, k) is None && 0 <= k ==> forall|m: int| k <= m < fams.len()
            ==> !((#[trigger] fams[m]).queue_count > 0 && fams[m].queue_flags & ty == ty),
    decreases fams.len() - k,
{
    if k < 0 || k >= fams.len() {
    } else if family_serves(fams[k], ty) {
    } else {
        lemma_first_serving_in_range(fams, ty, k + 1);
    }
}

/// Finds, among the device's families, the first that serves `ty`.
fn find_serving_family(fams: &Vec<QueueFamilyProperties>, ty: QueueFlags) -> (r: Option<usize>)
    ensures
        r matches Some(j) ==> first_serving_from(fams@, ty.bits, 0) == Some(j as int),
        r is None ==> first_serving_from(fams@, ty.bits, 0) is None,
{
    let mut j: usize = 0;
    while j < fams.len()
        invariant
            j <= fams.len(),
            first_serving_from(fams@, ty.bits, 0) == first_serving_from(fams@, ty.bits, j as int),
        decreases fams.len() - j,
    {
        let p = fams[j];
        if p.queue_count > 0 && (p.queue_flags & ty.bits == ty.bits) {
            return Some(j);
        }
        j = j + 1;
    }
    None
}

/// Possible physical device types
#[derive(Clone, Copy, Debug, PartialEq, Eq, Structural)]
pub enum PhysicalDeviceType {
    CPU,
    IntegratedGPU,
    DiscreteGPU,
    VirtualGPU,
    Other,
}

/// Errors of physical device selection
#[derive(Debug)]
pub enum PhysicalDeviceError {
    /// There are no Vulkan capable devices on the machine
    NoPhysicalDevices,
    /// No physical device matched the requirements
    NoSuitableDevice,
    /// Not all queue families have an index
    IncompleteQueueFamilies,
    /// The physical device lacks some (or all) of the required extensions, named here
    UnsupportedExtensions(Vec<String>),
    /// Another Vulkan error
    Other(VulkanError),
}

/// What the driver reports of one candidate physical device.
pub struct PhysicalDeviceCandidate {
    /// The kind of device
    pub device_type: PhysicalDeviceType,
    /// The device's queue families, in order
    pub queue_families: Vec<QueueFamilyProperties>,
    /// The names of the device's extensions, or the error of enumerating them
    pub extension_names: Result<Vec<String>, VulkanError>,
}

/// The Vulkan names of a list of device extensions.
pub open spec fn extension_names(exts: Seq<DeviceExtension>) -> Seq<Seq<char>> {
    exts.map_values(|e: DeviceExtension| extension_name(e))
}

/// Collects the steps required to choose a physical device.
pub struct PhysicalDeviceBuilder {
    /// Queue families to create the physical device with
    pub queue_families: Vec<QueueFamily>,
    /// Type of device to use, where a suitable device of that type is found
    pub preferred_type: PhysicalDeviceType,
    /// Device extensions to enable on the physical device
    pub device_extensions: Vec<DeviceExtension>,
}

impl PhysicalDeviceBuilder {
    /// Creates a new [PhysicalDeviceBuilder] with no queue families or
    /// extensions, preferring a discrete GPU.
    pub fn new() -> (b: PhysicalDeviceBuilder)
        ensures
            b.queue_families@ == Seq::<QueueFamily>::empty(),
            b.preferred_type == PhysicalDeviceType::DiscreteGPU,
            b.device_extensions@ == Seq::<DeviceExtension>::empty(),
    {
        PhysicalDeviceBuilder {
            queue_families: Vec::new(),
            preferred_type: PhysicalDeviceType::DiscreteGPU,
            device_extensions: Vec::new(),
        }
    }

    /// Adds a queue family to create the physical device with
    pub fn add_queue_family(self, family: QueueFamily) -> (b: PhysicalDeviceBuilder)
        ensures
            b.queue_families@ == self.queue_families@.push(family),
            b.preferred_type == self.preferred_type,
            b.device_extensions@ == self.device_extensions@,
    {
        let mut s = self;
        s.queue_families.push(family);
        s
    }

    /// Sets the preferred type of physical device to use
    pub fn preferred_type(self, ty: PhysicalDeviceType) -> (b: PhysicalDeviceBuilder)
        ensures
            b.queue_families@ == self.queue_families@,
            b.preferred_type == ty,
            b.device_extensions@ == self.device_extensions@,
    {
        let mut s = self;
        s.preferred_type = ty;
        s
    }

    /// Sets the device extensions to create the physical device with
    pub fn device_extensions(self, extensions: &[DeviceExtension]) -> (b: PhysicalDeviceBuilder)
        ensures
            b.queue_families@ == self.queue_families@,
            b.preferred_type == self.preferred_type,
            b.device_extensions@ == extensions@,
    {
        let mut copied: Vec<DeviceExtension> = Vec::new();
        let mut i: usize = 0;
        while i < extensions.len()
            invariant
                i <= extensions.len(),
                copied@ == extensions@.take(i as int),
            decreases extensions.len() - i,
        {
            copied.push(extensions[i]);
            assert(extensions@.take(i + 1) == extensions@.take(i as int).push(extensions@[i as int]));
            i = i + 1;
        }
        assert(extensions@.take(i as int) == extensions@);
        let mut s = self;
        s.device_extensions = copied;
        s
    }

    /// The Vulkan names of the required device extensions, in order.
    pub fn required_extension_names(&self) -> (names: Vec<String>)
        ensures
            names_view(names@) == extension_names(self.device_extensions@),
    {
        let mut names: Vec<String> = Vec::new();
        let mut i: usize = 0;
        while i < self.device_extensions.len()
            invariant
                i <= self.device_extensions.len(),
                names_view(names@) == extension_names(self.device_extensions@.take(i as int)),
            decreases self.device_extensions.len() - i,
        {
            let n = self.device_extensions[i].name();
            let ghost before = names@;
            names.push(n);
            assert(names_view(names@) =~= names_view(before).push(extension_name(self.device_extensions@[i as int])));
            assert(self.device_extensions@.take(i + 1) == self.device_extensions@.take(i as int).push(
                self.device_extensions@[i as int],
            ));
            assert(extension_names(self.device_extensions@.take(i + 1)) =~= extension_names(
                self.device_extensions@.take(i as int),
            ).push(extension_name(self.device_extensions@[i as int])));
            i = i + 1;
        }
        assert(self.device_extensions@.take(i as int) == self.device_extensions@);
        names
    }

    /// Goes through the queue families of the physical device, giving each
    /// required queue family the index of the first device family that has
    /// queues and serves its type, or no index where none does; if any
    /// required family is then left without an index,
    /// [PhysicalDeviceError::IncompleteQueueFamilies] is returned.
    pub fn find_queue_families(&mut self, device_families: &Vec<QueueFamilyProperties>) -> (r: Result<(), PhysicalDeviceError>)
        requires
            device_families.len() <= u32::MAX,
        ensures
            final(self).queue_families.len() == old(self).queue_families.len(),
            forall|i: int| 0 <= i < old(self).queue_families.len() ==>
                (#[trigger] final(self).queue_families@[i]).ty == old(self).queue_families@[i].ty
                && final(self).queue_families@[i].index == resolved_index(device_families@, old(self).queue_families@[i]),
            final(self).preferred_type == old(self).preferred_type,
            final(self).device_extensions@ == old(self).device_extensions@,
            r is Ok <==> families_served(device_families@, old(self).queue_families@),
            r is Err ==> r matches Err(PhysicalDeviceError::IncompleteQueueFamilies),
    {
        let ghost old_families = self.queue_families@;
        let mut i: usize = 0;
        while i < self.queue_families.len()
            invariant
                i <= self.queue_families.len(),
                self.queue_families.len() == old_families.len(),
                device_families.len() <= u32::MAX,
                forall|k: int| 0 <= k < i ==>
                    (#[trigger] self.queue_families@[k]).ty == old_families[k].ty
                    && self.queue_families@[k].index == resolved_index(device_families@, old_families[k]),
                forall|k: int| i <= k < self.queue_families.len() ==> #[trigger] self.queue_families@[k] == old_families[k],
                self.preferred_type == old(self).preferred_type,
                self.device_extensions@ == old(self).device_extensions@,
            decreases self.queue_families.len() - i,
        {
            let fam = self.queue_families[i];
            let found = find_serving_family(device_families, fam.ty);
            let index = match found {
                Some(j) => Some(j as u32),
                None => None,
            };
            self.queue_families.set(i, QueueFamily { ty: fam.ty, index });
            i = i + 1;
        }
        let ghost resolved = self.queue_families@;
        let mut k: usize = 0;
        while k < self.queue_families.len()
            invariant
                k <= self.queue_families.len(),
                self.queue_families@ == resolved,
                resolved.len() == old_families.len(),
                old_families == old(self).queue_families@,
                forall|m: int| 0 <= m < old_families.len() ==>
                    (#[trigger] resolved[m]).ty == old_families[m].ty
                    && resolved[m].index == resolved_index(device_families@, old_families[m]),
                self.preferred_type == old(self).preferred_type,
                self.device_extensions@ == old(self).device_extensions@,
                forall|m: int| 0 <= m < k ==> (#[trigger] self.queue_families@[m]).index is Some,
            decreases self.queue_families.len() - k,
        {
            if self.queue_families[k].index.is_none() {
                assert(!(first_serving_from(device_families@, old_families[k as int].ty.bits, 0) is Some));
                return Err(PhysicalDeviceError::IncompleteQueueFamilies);
            }
            k = k + 1;
        }
        assert forall|m: int| 0 <= m < old_families.len() implies
            (#[trigger] first_serving_from(device_families@, old_families[m].ty.bits, 0)) is Some by {
            assert(self.queue_families@[m].index is Some);
        }
        Ok(())
    }

    /// Checks whether the extension names a physical device reports include
    /// every required device extension.
    ///
    /// Where some are missing, [PhysicalDeviceError::UnsupportedExtensions]
    /// names them, in the order they were required.
    pub fn check_device_extension_support(&self, available: &Vec<String>) -> (r: Result<(), PhysicalDeviceError>)
        ensures
            r is Ok <==> missing_names(names_view(available@), extension_names(self.device_extensions@)).len() == 0,
            r matches Err(e) ==> e matches PhysicalDeviceError::UnsupportedExtensions(names)
                && names_view(names@) == missing_names(names_view(available@), extension_names(self.device_extensions@)),
    {
        let required = self.required_extension_names();
        let (is_missing, missing) = contains_required(available, &required);
        if is_missing {
            Err(PhysicalDeviceError::UnsupportedExtensions(missing))
        } else {
            Ok(())
        }
    }
}

/// Whether every required family has a device family that serves its type.
pub open spec fn families_served(fams: Seq<QueueFamilyProperties>, required: Seq<QueueFamily>) -> bool {
    forall|i: int| 0 <= i < required.len() ==> (#[trigger] first_serving_from(fams, required[i].ty.bits, 0)) is Some
}

/// Whether a candidate device meets the requirements: it serves every
/// required queue family, and its extensions, which it could enumerate,
/// include every required one.
pub open spec fn candidate_suitable(required: Seq<QueueFamily>, exts: Seq<DeviceExtension>, c: PhysicalDeviceCandidate) -> bool {
    &&& families_served(c.queue_families@, required)
    &&& c.extension_names matches Ok(names)
    &&& missing_names(names_view(names@), extension_names(exts)).len() == 0
}

/// Whether position `k` is the device chosen among the candidates: the first
/// suitable device of the preferred type, or where no suitable device has
/// that type, the first suitable device.
pub open spec fn is_chosen_device(
    required: Seq<QueueFamily>,
    exts: Seq<DeviceExtension>,
    preferred: PhysicalDeviceType,
    ds: Seq<PhysicalDeviceCandidate>,
    k: int,
) -> bool {
    &&& 0 <= k < ds.len()
    &&& candidate_suitable(required, exts, ds[k])
    &&& if exists|m: int| 0 <= m < ds.len() && candidate_suitable(required, exts, #[trigger] ds[m]) && ds[m].device_type == preferred {
        &&& ds[k].device_type == preferred
        &&& forall|m: int| 0 <= m < k ==> !(candidate_suitable(required, exts, #[trigger] ds[m]) && ds[m].device_type == preferred)
    } else {
        forall|m: int| 0 <= m < k ==> !candidate_suitable(required, exts, #[trigger] ds[m])
    }
}

impl PhysicalDeviceBuilder {
    /// Checks whether a physical device has the required queue families and
    /// supports the required device extensions; the queue families get their
    /// indices on the device (see [Self::find_queue_families]).
    fn is_device_suitable(&mut self, candidate: &PhysicalDeviceCandidate) -> (r: bool)
        requires
            candidate.queue_families.len() <= u32::MAX,
        ensures
            final(self).queue_families.len() == old(self).queue_families.len(),
            forall|i: int| 0 <= i < old(self).queue_families.len() ==>
                (#[trigger] final(self).queue_families@[i]).ty == old(self).queue_families@[i].ty
                && final(self).queue_families@[i].index == resolved_index(candidate.queue_families@, old(self).queue_families@[i]),
            final(self).preferred_type == old(self).preferred_type,
            final(self).device_extensions@ == old(self).device_extensions@,
            r == candidate_suitable(old(self).queue_families@, old(self).device_extensions@, *candidate),
    {
        if self.find_queue_families(&candidate.queue_families).is_err() {
            return false;
        }
        match &candidate.extension_names {
            Err(_) => false,
            Ok(names) => self.check_device_extension_support(names).is_ok(),
        }
    }

    /// Chooses, among the physical devices the driver enumerated, the first
    /// one of the preferred type that meets the requirements, or where none of
    /// that type does, the first that meets them; returns its position, the
    /// queue families getting their indices on it.
    ///
    /// Where the enumeration failed, [PhysicalDeviceError::NoPhysicalDevices]
    /// is returned; where no device meets the requirements,
    /// [PhysicalDeviceError::NoSuitableDevice], the queue families then having
    /// their indices on the last device checked.
    pub fn pick_physical_device(&mut self, devices: Result<Vec<PhysicalDeviceCandidate>, VulkanError>) -> (r: Result<usize, PhysicalDeviceError>)
        requires
            devices matches Ok(ds) ==> forall|i: int| 0 <= i < ds.len() ==> (#[trigger] ds[i]).queue_families.len() <= u32::MAX,
        ensures
            final(self).queue_families.len() == old(self).queue_families.len(),
            forall|i: int| 0 <= i < old(self).queue_families.len() ==>
                (#[trigger] final(self).queue_families@[i]).ty == old(self).queue_families@[i].ty,
            final(self).preferred_type == old(self).preferred_type,
            final(self).device_extensions@ == old(self).device_extensions@,
            match devices {
                Err(_) => (r matches Err(PhysicalDeviceError::NoPhysicalDevices)) && *final(self) == *old(self),
                Ok(ds) => match r {
                    Ok(k) => is_chosen_device(old(self).queue_families@, old(self).device_extensions@, old(self).preferred_type, ds@, k as int)
                        && forall|i: int| 0 <= i < old(self).queue_families.len() ==>
                            (#[trigger] final(self).queue_families@[i]).index == resolved_index(ds@[k as int].queue_families@, old(self).queue_families@[i]),
                    Err(e) => (e matches PhysicalDeviceError::NoSuitableDevice)
                        && forall|m: int| 0 <= m < ds.len() ==> !candidate_suitable(old(self).queue_families@, old(self).device_extensions@, #[trigger] ds@[m]),
                },
            },
    {
        let list = match devices {
            Ok(ds) => ds,
            Err(_) => {
                return Err(PhysicalDeviceError::NoPhysicalDevices);
            },
        };
        let ghost req = self.queue_families@;
        let ghost exts = self.device_extensions@;
        let preferred = self.preferred_type;
        let mut first_any: Option<usize> = None;
        let mut first_preferred: Option<usize> = None;
        let mut i: usize = 0;
        while i < list.len()
            invariant
                i <= list.len(),
                forall|k: int| 0 <= k < list.len() ==> (#[trigger] list@[k]).queue_families.len() <= u32::MAX,
                req == old(self).queue_families@,
                exts == old(self).device_extensions@,
                preferred == old(self).preferred_type,
                self.queue_families.len() == req.len(),
                forall|j: int| 0 <= j < req.len() ==> (#[trigger] self.queue_families@[j]).ty == req[j].ty,
                self.preferred_type == old(self).preferred_type,
                self.device_extensions@ == exts,
                first_any matches Some(k) ==> k < i && candidate_suitable(req, exts, list@[k as int])
                    && forall|m: int| 0 <= m < k ==> !candidate_suitable(req, exts, #[trigger] list@[m]),
                first_any is None ==> forall|m: int| 0 <= m < i ==> !candidate_suitable(req, exts, #[trigger] list@[m]),
                first_preferred matches Some(k) ==> k < i && candidate_suitable(req, exts, list@[k as int])
                    && list@[k as int].device_type == preferred
                    && forall|m: int| 0 <= m < k ==> !(candidate_suitable(req, exts, #[trigger] list@[m]) && list@[m].device_type == preferred),
                first_preferred is None ==> forall|m: int| 0 <= m < i ==> !(candidate_suitable(req, exts, #[trigger] list@[m]) && list@[m].device_type == preferred),
            decreases list.len() - i,
        {
            let ghost before = self.queue_families@;
            assert(before.len() == req.len());
            let suitable = self.is_device_suitable(&list[i]);
            proof {
                assert(candidate_suitable(before, exts, list@[i as int]) == candidate_suitable(req, exts, list@[i as int])) by {
                    assert forall|j: int| 0 <= j < req.len() implies #[trigger] before[j].ty == req[j].ty by {
                        assert(self.queue_families@[j].ty == req[j].ty);
                    }
                    assert(families_served(list@[i as int].queue_families@, before) == families_served(list@[i as int].queue_families@, req)) by {
                        if families_served(list@[i as int].queue_families@, before) {
                            assert forall|j: int| 0 <= j < req.len() implies (#[trigger] first_serving_from(list@[i as int].queue_families@, req[j].ty.bits, 0)) is Some by {
                                assert(first_serving_from(list@[i as int].queue_families@, before[j].ty.bits, 0) is Some);
                            }
                        }
                        if families_served(list@[i as int].queue_families@, req) {
                            assert forall|j: int| 0 <= j < before.len() implies (#[trigger] first_serving_from(list@[i as int].queue_families@, before[j].ty.bits, 0)) is Some by {
                                assert(first_serving_from(list@[i as int].queue_families@, req[j].ty.bits, 0) is Some);
                            }
                        }
                    }
                }
            }
            if suitable {
                if first_any.is_none() {
                    first_any = Some(i);
                }
                if first_preferred.is_none() && list[i].device_type == preferred {
                    first_preferred = Some(i);
                }
            }
            i = i + 1;
        }
        let chosen = match first_preferred {
            Some(k) => k,
            None => match first_any {
                Some(k) => k,
                None => {
                    return Err(PhysicalDeviceError::NoSuitableDevice);
                },
            },
        };
        let ghost before = self.queue_families@;
        let _ = self.find_queue_families(&list[chosen].queue_families);
        proof {
            assert forall|j: int| 0 <= j < req.len() implies
                (#[trigger] self.queue_families@[j]).index == resolved_index(list@[chosen as int].queue_families@, req[j]) by {
                assert(before[j].ty == req[j].ty);
            }
            if first_preferred is None {
                assert(!exists|m: int| 0 <= m < list.len() && candidate_suitable(req, exts, #[trigger] list@[m]) && list@[m].device_type == preferred);
            }
        }
        Ok(chosen)
    }
}

/// Errors of the logical device
#[derive(Clone, Copy, Debug, PartialEq, Eq, Structural)]
pub enum LogicalDeviceError {
    /// Failed to create a logical device
    CantCreate(VulkanError),
    /// No format among the candidates is supported by the device
    NoSupportedFormat,
    /// No memory type of the device matches the caller's requirements
    NoSupportedMemoryType,
    /// Another Vulkan error
    Other(VulkanError),
}

/// Whether memory type `i` is allowed by the type filter and has the required properties.
pub open spec fn memory_type_fits(types: Seq<MemoryPropertyFlags>, filter: u32, required: u32, i: int) -> bool {
    filter & (1u32 << (i as u32)) > 0 && bits_contain(types[i].bits, required)
}

/// The first memory type at or after `k` that fits.
pub open spec fn first_fitting_memory_type(types: Seq<MemoryPropertyFlags>, filter: u32, required: u32, k: int) -> Option<int>
    decreases types.len() - k,
{
    if k < 0 || k >= types.len() {
        None
    } else if memory_type_fits(types, filter, required, k) {
        Some(k)
    } else {
        first_fitting_memory_type(types, filter, required, k + 1)
    }
}

/// The memory type found from `k` on is one at or after `k` that the filter
/// allows (its bit is set) and that has every required property (all the
/// required bits are set), with no such type between `k` and it; where none
/// is found, no type from `k` on is such a type.
pub proof fn lemma_memory_type_search(types: Seq<MemoryPropertyFlags>, filter: u32, required: u32, k: int)
    requires
        0 <= k,
    ensures
        first_fitting_memory_type(types, filter, required, k) matches Some(i) ==> k <= i < types.len()
            && filter & (1u32 << (i as u32)) != 0
            && types[i].bits & required == required
            && forall|j: int| k <= j < i ==> !(filter & (1u32 << (j as u32)) != 0 && (#[trigger] types[j]).bits & required == required),
        first_fitting_memory_type(types, filter, required, k) is None ==>
            forall|j: int| k <= j < types.len() ==> !(filter & (1u32 << (j as u32)) != 0 && (#[trigger] types[j]).bits & required == required),
    decreases types.len() - k,
{
    if k < types.len() {
        lemma_memory_type_search(types, filter, required, k + 1);
    }
}

/// Finds the first memory type of the device that the `type_filter` bit
/// mask allows and that has all the required properties.
///
/// The device reports its memory types as a fixed array of (at most) 32.
pub fn find_memory_type(memory_types: &Vec<MemoryPropertyFlags>, type_filter: u32, required: MemoryPropertyFlags) -> (r: Result<u32, LogicalDeviceError>)
    requires
        memory_types.len() <= 32,
    ensures
        match first_fitting_memory_type(memory_types@, type_filter, required.bits, 0) {
            Some(i) => r == Ok::<u32, LogicalDeviceError>(i as u32),
            None => r == Err::<u32, LogicalDeviceError>(LogicalDeviceError::NoSupportedMemoryType),
        },
        r matches Ok(i) ==> i < memory_types.len() && type_filter & (1u32 << i) != 0
            && memory_types@[i as int].bits & required.bits == required.bits
            && forall|j: int| 0 <= j < i ==> !(type_filter & (1u32 << (j as u32)) != 0
                && (#[trigger] memory_types@[j]).bits & required.bits == required.bits),
        r is Err ==> forall|j: int| 0 <= j < memory_types.len() ==> !(type_filter & (1u32 << (j as u32)) != 0
            && (#[trigger] memory_types@[j]).bits & required.bits == required.bits),
{
    let mut i: usize = 0;
    while i < memory_types.len()
        invariant
            i <= memory_types.len() <= 32,
            first_fitting_memory_type(memory_types@, type_filter, required.bits, 0)
                == first_fitting_memory_type(memory_types@, type_filter, required.bits, i as int),
        decreases memory_types.len() - i,
    {
        let shift = i as u32;
        if type_filter & (1u32 << shift) > 0 && memory_types[i].contains(required) {
            proof {
                lemma_memory_type_search(memory_types@, type_filter, required.bits, 0);
            }
            return Ok(shift);
        }
        i = i + 1;
    }
    proof {
        lemma_memory_type_search(memory_types@, type_filter, required.bits, 0);
    }
    Err(LogicalDeviceError::NoSupportedMemoryType)
}

/// Raw `VkImageTiling` values.
pub const IMAGE_TILING_OPTIMAL: i32 = 0;
pub const IMAGE_TILING_LINEAR: i32 = 1;

/// What the device reports of a candidate format.
#[derive(Clone, Copy, Debug, PartialEq, Eq, Structural)]
pub struct FormatCandidate {
    /// Raw `VkFormat` of the candidate
    pub format: i32,
    /// Raw format features supported with linear tiling
    pub linear_tiling_features: u32,
    /// Raw format features supported with optimal tiling
    pub optimal_tiling_features: u32,
}

/// Whether a candidate supports the features with the tiling.
pub open spec fn format_supports(c: FormatCandidate, tiling: i32, features: u32) -> bool {
    (tiling == IMAGE_TILING_LINEAR && bits_contain(c.linear_tiling_features, features))
    || (tiling == IMAGE_TILING_OPTIMAL && bits_contain(c.optimal_tiling_features, features))
}

/// The first candidate at or after `k` that supports the features.
pub open spec fn first_supported_format(cs: Seq<FormatCandidate>, tiling: i32, features: u32, k: int) -> Option<int>
    decreases cs.len() - k,
{
    if k < 0 || k >= cs.len() {
        None
    } else if format_supports(cs[k], tiling, features) {
        Some(k)
    } else {
        first_supported_format(cs, tiling, features, k + 1)
    }
}

/// The format found from `k` on is that of the first candidate from `k` on
/// that has every required feature (all their bits set) with the tiling
/// asked for, linear or optimal; none is found only where no candidate from
/// `k` on has them.
pub proof fn lemma_supported_format_search(cs: Seq<FormatCandidate>, tiling: i32, features: u32, k: int)
    requires
        0 <= k,
    ensures
        first_supported_format(cs, tiling, features, k) matches Some(i) ==> k <= i < cs.len()
            && ((tiling == IMAGE_TILING_LINEAR && cs[i].linear_tiling_features & features == features)
                || (tiling == IMAGE_TILING_OPTIMAL && cs[i].optimal_tiling_features & features == features))
            && forall|j: int| k <= j < i ==> !((tiling == IMAGE_TILING_LINEAR && (#[trigger] cs[j]).linear_tiling_features & features == features)
                || (tiling == IMAGE_TILING_OPTIMAL && cs[j].optimal_tiling_features & features == features)),
        first_supported_format(cs, tiling, features, k) is None ==> forall|j: int| k <= j < cs.len()
            ==> !((tiling == IMAGE_TILING_LINEAR && (#[trigger] cs[j]).linear_tiling_features & features == features)
                || (tiling == IMAGE_TILING_OPTIMAL && cs[j].optimal_tiling_features & features == features)),
    decreases cs.len() - k,
{
    if k < cs.len() {
        lemma_supported_format_search(cs, tiling, features, k + 1);
    }
}

/// Finds the first candidate format that the device supports with the
/// tiling for all the required features.
pub fn find_supported_format(candidates: &Vec<FormatCandidate>, tiling: i32, features: u32) -> (r: Result<i32, LogicalDeviceError>)
    ensures
        match first_supported_format(candidates@, tiling, features, 0) {
            Some(k) => r == Ok::<i32, LogicalDeviceError>(candidates@[k].format),
            None => r == Err::<i32, LogicalDeviceError>(LogicalDeviceError::NoSupportedFormat),
        },
{
    let mut k: usize = 0;
    while k < candidates.len()
        invariant
            k <= candidates.len(),
            first_supported_format(candidates@, tiling, features, 0)
                == first_supported_format(candidates@, tiling, features, k as int),
        decreases candidates.len() - k,
    {
        let c = candidates[k];
        if tiling == IMAGE_TILING_LINEAR && c.linear_tiling_features & features == features {
            return Ok(c.format);
        } else if tiling == IMAGE_TILING_OPTIMAL && c.optimal_tiling_features & features == features {
            return Ok(c.format);
        }
        k = k + 1;
    }
    Err(LogicalDeviceError::NoSupportedFormat)
}

/// The queue family indices of a list of families that all have one.
pub open spec fn family_indices(families: Seq<QueueFamily>) -> Seq<u32> {
    families.map_values(|f: QueueFamily| f.index->0)
}

/// The distinct queue family indices of the families, each once, in the
/// order of their first occurrence: one queue is created per index.
pub fn unique_queue_indices(families: &Vec<QueueFamily>) -> (r: Vec<u32>)
    requires
        forall|i: int| 0 <= i < families.len() ==> (#[trigger] families@[i]).index is Some,
    ensures
        r@.no_duplicates(),
        r@.to_set() == family_indices(families@).to_set(),
{
    let mut out: Vec<u32> = Vec::new();
    let mut i: usize = 0;
    while i < families.len()
        invariant
            i <= families.len(),
            forall|k: int| 0 <= k < families.len() ==> (#[trigger] families@[k]).index is Some,
            out@.no_duplicates(),
            out@.to_set() == family_indices(families@).take(i as int).to_set(),
        decreases families.len() - i,
    {
        let idx = match families[i].index {
            Some(x) => x,
            None => 0,
        };
        let mut seen = false;
        let mut j: usize = 0;
        while j < out.len()
            invariant
                j <= out.len(),
                seen == exists|m: int| 0 <= m < j && out@[m] == idx,
            decreases out.len() - j,
        {
            if out[j] == idx {
                seen = true;
            }
            j = j + 1;
        }
        let ghost before = out@;
        proof {
            let fi = family_indices(families@);
            assert(fi[i as int] == idx);
            assert(fi.take(i + 1) == fi.take(i as int).push(idx));
            assert(fi.take(i as int).push(idx) == fi.take(i as int) + seq![idx]);
            vstd::seq::Seq::<u32>::lemma_to_set_insert_commutes(fi.take(i as int), idx);
            assert(fi.take(i as int).push(idx).to_set() == fi.take(i as int).to_set().insert(idx));
        }
        if !seen {
            out.push(idx);
            proof {
                vstd::seq::Seq::<u32>::lemma_to_set_insert_commutes(before, idx);
                assert(out@ == before.push(idx));
                assert(before.push(idx) == before + seq![idx]);
                assert(out@.to_set() == before.to_set().insert(idx));
                assert forall|a: int, b: int| 0 <= a < out@.len() && 0 <= b < out@.len() && a != b implies out@[a] != out@[b] by {
                    if a < before.len() && b < before.len() {
                    } else if a == before.len() {
                        assert(out@[b] == before[b]);
                    } else {
                        assert(out@[a] == before[a]);
                    }
                }
            }
        } else {
            proof {
                let m = choose|m: int| 0 <= m < j && out@[m] == idx;
                assert(out@.to_set().contains(idx));
                assert(out@.to_set().insert(idx) =~= out@.to_set());
            }
        }
        i = i + 1;
    }
    assert(family_indices(families@).take(i as int) == family_indices(families@));
    out
}

/// Wraps a physical device: the extensions enabled on it, the queue families
/// it was chosen with, and its memory types.
pub struct PhysicalDevice {
    /// All enabled device extensions
    pub extensions: Vec<DeviceExtension>,
    /// The queue families the device was chosen with
    pub queue_families: Vec<QueueFamily>,
    /// The properties of each of the device's (at most 32) memory types
    pub memory_types: Vec<MemoryPropertyFlags>,
}

/// The first queue family at or after `k` whose type contains `ty`.
pub open spec fn first_family_of_type(fams: Seq<QueueFamily>, ty: u32, k: int) -> Option<int>
    decreases fams.len() - k,
{
    if k < 0 || k >= fams.len() {
        None
    } else if bits_contain(fams[k].ty.bits, ty) {
        Some(k)
    } else {
        first_family_of_type(fams, ty, k + 1)
    }
}

impl PhysicalDevice {
    /// Returns the enabled device extensions
    pub fn enabled_extensions(&self) -> (r: &[DeviceExtension])
        ensures
            r@ == self.extensions@,
    {
        self.extensions.as_slice()
    }

    /// Returns the queue families the device was chosen with
    pub fn queue_families(&self) -> (r: &[QueueFamily])
        ensures
            r@ == self.queue_families@,
    {
        self.queue_families.as_slice()
    }

    /// Finds the first of the device's queue families whose type contains
    /// `ty`, or `None` where none does.
    pub fn queue_family(&self, ty: QueueFlags) -> (r: Option<&QueueFamily>)
        ensures
            match first_family_of_type(self.queue_families@, ty.bits, 0) {
                Some(k) => r == Some(&self.queue_families@[k]),
                None => r is None,
            },
    {
        let mut k: usize = 0;
        while k < self.queue_families.len()
            invariant
                k <= self.queue_families.len(),
                first_family_of_type(self.queue_families@, ty.bits, 0)
                    == first_family_of_type(self.queue_families@, ty.bits, k as int),
            decreases self.queue_families.len() - k,
        {
            if self.queue_families[k].ty.contains(ty) {
                return Some(&self.queue_families[k]);
            }
            k = k + 1;
        }
        None
    }

    /// Finds a memory type of the device that `type_filter` allows and that
    /// has the required properties (see [find_memory_type]).
    pub fn find_memory_type(&self, type_filter: u32, required: MemoryPropertyFlags) -> (r: Result<u32, LogicalDeviceError>)
        requires
            self.memory_types.len() <= 32,
        ensures
            match first_fitting_memory_type(self.memory_types@, type_filter, required.bits, 0) {
                Some(i) => r == Ok::<u32, LogicalDeviceError>(i as u32),
                None => r == Err::<u32, LogicalDeviceError>(LogicalDeviceError::NoSupportedMemoryType),
            },
            r matches Ok(i) ==> i < self.memory_types.len() && type_filter & (1u32 << i) != 0
                && self.memory_types@[i as int].bits & required.bits == required.bits
                && forall|j: int| 0 <= j < i ==> !(type_filter & (1u32 << (j as u32)) != 0
                    && (#[trigger] self.memory_types@[j]).bits & required.bits == required.bits),
            r is Err ==> forall|j: int| 0 <= j < self.memory_types.len() ==> !(type_filter & (1u32 << (j as u32)) != 0
                && (#[trigger] self.memory_types@[j]).bits & required.bits == required.bits),
    {
        find_memory_type(&self.memory_types, type_filter, required)
    }
}

/// The graphics, present and transfer queue families of a device.
#[derive(Clone, Copy, Debug, PartialEq, Eq, Structural)]
pub struct QueueFamilyIndices {
    pub graphics_family: Option<u32>,
    pub present_family: Option<u32>,
    pub transfer_family: Option<u32>,
}

/// Whether all three families have an index.
pub open spec fn indices_complete(q: QueueFamilyIndices) -> bool {
    q.graphics_family is Some && q.present_family is Some && q.transfer_family is Some
}

/// The indices after looking at family `k` of the device.
pub open spec fn indices_step(q: QueueFamilyIndices, p: QueueFamilyProperties, k: int) -> QueueFamilyIndices {
    if p.queue_count > 0 {
        QueueFamilyIndices {
            graphics_family: if bits_contain(p.queue_flags, 0x1) { Some(k as u32) } else { q.graphics_family },
            present_family: if p.present_support { Some(k as u32) } else { q.present_family },
            transfer_family: if bits_contain(p.queue_flags, 0x4) { Some(k as u32) } else { q.transfer_family },
        }
    } else {
        q
    }
}

/// The indices found by looking at the families from `k` on, starting from
/// `q` and stopping as soon as all three have an index.
pub open spec fn indices_scan(fams: Seq<QueueFamilyProperties>, k: int, q: QueueFamilyIndices) -> QueueFamilyIndices
    decreases fams.len() - k,
{
    if k < 0 || k >= fams.len() {
        q
    } else {
        let next = indices_step(q, fams[k], k);
        if indices_complete(next) {
            next
        } else {
            indices_scan(fams, k + 1, next)
        }
    }
}

/// Each index found names a family of the device that has queues of its
/// kind: graphics queues for the graphics family, transfer queues for the
/// transfer family, and the ability to present for the present family.
pub open spec fn indices_sound(fams: Seq<QueueFamilyProperties>, q: QueueFamilyIndices) -> bool {
    &&& q.graphics_family matches Some(i) ==> i < fams.len() && fams[i as int].queue_count > 0
        && fams[i as int].queue_flags & 0x1 == 0x1
    &&& q.present_family matches Some(i) ==> i < fams.len() && fams[i as int].queue_count > 0
        && fams[i as int].present_support
    &&& q.transfer_family matches Some(i) ==> i < fams.len() && fams[i as int].queue_count > 0
        && fams[i as int].queue_flags & 0x4 == 0x4
}

/// Scanning the families from `k` on keeps the indices sound, and leaves a
/// family without an index only where it had none and no family from `k` on
/// has queues of its kind.
pub proof fn lemma_queue_scan(fams: Seq<QueueFamilyProperties>, k: int, q: QueueFamilyIndices)
    requires
        0 <= k,
        fams.len() <= u32::MAX,
        indices_sound(fams, q),
    ensures
        indices_sound(fams, indices_scan(fams, k, q)),
        indices_scan(fams, k, q).graphics_family is None ==> q.graphics_family is None
            && forall|m: int| k <= m < fams.len() ==> !((#[trigger] fams[m]).queue_count > 0 && fams[m].queue_flags & 0x1 == 0x1),
        indices_scan(fams, k, q).present_family is None ==> q.present_family is None
            && forall|m: int| k <= m < fams.len() ==> !((#[trigger] fams[m]).queue_count > 0 && fams[m].present_support),
        indices_scan(fams, k, q).transfer_family is None ==> q.transfer_family is None
            && forall|m: int| k <= m < fams.len() ==> !((#[trigger] fams[m]).queue_count > 0 && fams[m].queue_flags & 0x4 == 0x4),
    decreases fams.len() - k,
{
    if k < fams.len() {
        let next = indices_step(q, fams[k], k);
        assert((k as u32) as int == k);
        assert(indices_sound(fams, next));
        if !indices_complete(next) {
            lemma_queue_scan(fams, k + 1, next);
        }
    }
}

/// The families found for a device are sound, and a family is left without
/// an index only where no family of the device has queues of its kind.
pub proof fn lemma_queue_families_found(fams: Seq<QueueFamilyProperties>)
    requires
        fams.len() <= u32::MAX,
    ensures
        ({
            let r = indices_scan(fams, 0, QueueFamilyIndices { graphics_family: None, present_family: None, transfer_family: None });
            &&& indices_sound(fams, r)
            &&& r.graphics_family is None <==> forall|m: int| 0 <= m < fams.len()
                ==> !((#[trigger] fams[m]).queue_count > 0 && fams[m].queue_flags & 0x1 == 0x1)
            &&& r.present_family is None <==> forall|m: int| 0 <= m < fams.len()
                ==> !((#[trigger] fams[m]).queue_count > 0 && fams[m].present_support)
            &&& r.transfer_family is None <==> forall|m: int| 0 <= m < fams.len()
                ==> !((#[trigger] fams[m]).queue_count > 0 && fams[m].queue_flags & 0x4 == 0x4)
        }),
{
    let q = QueueFamilyIndices { graphics_family: None, present_family: None, transfer_family: None };
    lemma_queue_scan(fams, 0, q);
    let r = indices_scan(fams, 0, q);
    if let Some(i) = r.graphics_family {
        assert(fams[i as int].queue_count > 0 && fams[i as int].queue_flags & 0x1 == 0x1);
    }
    if let Some(i) = r.present_family {
        assert(fams[i as int].queue_count > 0 && fams[i as int].present_support);
    }
    if let Some(i) = r.transfer_family {
        assert(fams[i as int].queue_count > 0 && fams[i as int].queue_flags & 0x4 == 0x4);
    }
}

impl QueueFamilyIndices {
    /// Returns whether all the queue family indices are present
    pub fn is_complete(&self) -> (r: bool)
        ensures
            r == indices_complete(*self),
    {
        self.graphics_family.is_some() && self.present_family.is_some() && self.transfer_family.is_some()
    }
}

/// Goes through a device's queue families in order: each family with queues
/// becomes the graphics family if it has graphics queues, the transfer family
/// if it has transfer queues and the present family if it can present; the
/// search stops as soon as all three are found.
pub fn find_queue_family(families: &Vec<QueueFamilyProperties>) -> (r: QueueFamilyIndices)
    requires
        families.len() <= u32::MAX,
    ensures
        r == indices_scan(families@, 0, QueueFamilyIndices { graphics_family: None, present_family: None, transfer_family: None }),
{
    let mut indices = QueueFamilyIndices { graphics_family: None, present_family: None, transfer_family: None };
    let mut index: usize = 0;
    while index < families.len()
        invariant
            index <= families.len() <= u32::MAX,
            indices_scan(families@, 0, QueueFamilyIndices { graphics_family: None, present_family: None, transfer_family: None })
                == indices_scan(families@, index as int, indices),
        decreases families.len() - index,
    {
        let family = families[index];
        if family.queue_count > 0 {
            if family.queue_flags & 0x1 == 0x1 {
                indices.graphics_family = Some(index as u32);
            }
            if family.queue_flags & 0x4 == 0x4 {
                indices.transfer_family = Some(index as u32);
            }
            if family.present_support {
                indices.present_family = Some(index as u32);
            }
        }
        if indices.is_complete() {
            return indices;
        }
        index = index + 1;
    }
    indices
}

} // verus!

//! Descriptor set layouts, pools and writes.
use vstd::prelude::*;
use crate::vulkan::device::LogicalDeviceError;
use crate::vulkan::error::VulkanError;
use crate::vulkan::flags::ShaderStageFlags;

pub mod allocator;
pub mod cache;

verus! {

/// Errors of descriptor creation and use
#[derive(Clone, Copy, Debug, PartialEq, Eq, Structural)]
pub enum DescriptorError {
    CantCreateLayout(VulkanError),
    CantCreatePool(VulkanError),
    DeviceError(LogicalDeviceError),
}

/// The kinds of descriptors
#[derive(Clone, Copy, Debug, PartialEq, Eq, Structural)]
pub enum DescriptorType {
    Sampler,
    CombinedImageSampler,
    SampledImage,
    StorageImage,
    UniformTexelBuffer,
    StorageTexelBuffer,
    UniformBuffer,
    StorageBuffer,
    UniformBufferDynamic,
    StorageBufferDynamic,
    InputAttachment,
}

/// The raw `VkDescriptorType` of a descriptor type.
pub open spec fn descriptor_type_raw(t: DescriptorType) -> i32 {
    match t {
        DescriptorType::Sampler => 0,
        DescriptorType::CombinedImageSampler => 1,
        DescriptorType::SampledImage => 2,
        DescriptorType::StorageImage => 3,
        DescriptorType::UniformTexelBuffer => 4,
        DescriptorType::StorageTexelBuffer => 5,
        DescriptorType::UniformBuffer => 6,
        DescriptorType::StorageBuffer => 7,
        DescriptorType::UniformBufferDynamic => 8,
        DescriptorType::StorageBufferDynamic => 9,
        DescriptorType::InputAttachment => 10,
    }
}

impl DescriptorType {
    /// The raw `VkDescriptorType`.
    pub fn to_raw(self) -> (r: i32)
        ensures
            r == descriptor_type_raw(self),
    {
        match self {
            DescriptorType::Sampler => 0,
            DescriptorType::CombinedImageSampler => 1,
            DescriptorType::SampledImage => 2,
            DescriptorType::StorageImage => 3,
            DescriptorType::UniformTexelBuffer => 4,
            DescriptorType::StorageTexelBuffer => 5,
            DescriptorType::UniformBuffer => 6,
            DescriptorType::StorageBuffer => 7,
            DescriptorType::UniformBufferDynamic => 8,
            DescriptorType::StorageBufferDynamic => 9,
            DescriptorType::InputAttachment => 10,
        }
    }
}

/// A binding of a descriptor set layout, as Vulkan receives it.
#[derive(Clone, Copy, Debug, PartialEq, Eq, Structural)]
pub struct LayoutBinding {
    pub binding: u32,
    /// Raw `VkDescriptorType`
    pub descriptor_type: i32,
    pub descriptor_count: u32,
    /// Raw `VkShaderStageFlags`
    pub stage_flags: u32,
}

/// A binding of a descriptor set
#[derive(Clone, Copy, Debug, PartialEq, Eq, Structural)]
pub struct DescriptorSetBinding {
    pub binding: u32,
    pub ty: DescriptorType,
    pub count: u32,
    pub shader_stage_flags: ShaderStageFlags,
}

impl DescriptorSetBinding {
    /// The binding as Vulkan receives it.
    pub fn to_layout_binding(self) -> (r: LayoutBinding)
        ensures
            r == (LayoutBinding {
                binding: self.binding,
                descriptor_type: descriptor_type_raw(self.ty),
                descriptor_count: self.count,
                stage_flags: self.shader_stage_flags.bits,
            }),
    {
        LayoutBinding {
            binding: self.binding,
            descriptor_type: self.ty.to_raw(),
            descriptor_count: self.count,
            stage_flags: self.shader_stage_flags.bits,
        }
    }
}

/// The layout of a descriptor set: its bindings.
pub struct DescriptorSetLayout {
    pub bindings: Vec<DescriptorSetBinding>,
}

impl DescriptorSetLayout {
    /// The bindings as Vulkan receives them, in order.
    pub fn layout_bindings(&self) -> (r: Vec<LayoutBinding>)
        ensures
            r.len() == self.bindings.len(),
            forall|i: int| 0 <= i < r.len() ==> (#[trigger] r@[i]) == (LayoutBinding {
                binding: self.bindings@[i].binding,
                descriptor_type: descriptor_type_raw(self.bindings@[i].ty),
                descriptor_count: self.bindings@[i].count,
                stage_flags: self.bindings@[i].shader_stage_flags.bits,
            }),
    {
        let mut out: Vec<LayoutBinding> = Vec::new();
        let mut i: usize = 0;
        while i < self.bindings.len()
            invariant
                i <= self.bindings.len(),
                out.len() == i,
                forall|k: int| 0 <= k < i ==> (#[trigger] out@[k]) == (LayoutBinding {
                    binding: self.bindings@[k].binding,
                    descriptor_type: descriptor_type_raw(self.bindings@[k].ty),
                    descriptor_count: self.bindings@[k].count,
                    stage_flags: self.bindings@[k].shader_stage_flags.bits,
                }),
            decreases self.bindings.len() - i,
        {
            out.push(self.bindings[i].to_layout_binding());
            i = i + 1;
        }
        out
    }
}

/// The number of descriptors of a type that a pool holds.
#[derive(Clone, Copy, Debug, PartialEq, Eq, Structural)]
pub struct DescriptorPoolSize {
    /// Raw `VkDescriptorType`
    pub ty: i32,
    pub descriptor_count: u32,
}

/// Collects the sizes and the set limit a descriptor pool is built with.
pub struct DescriptorPoolBuilder {
    pub pool_sizes: Vec<DescriptorPoolSize>,
    pub max_sets: u32,
}

impl DescriptorPoolBuilder {
    /// A builder with no pool sizes and a limit of 1000 sets.
    pub fn new() -> (b: DescriptorPoolBuilder)
        ensures
            b.pool_sizes@ == Seq::<DescriptorPoolSize>::empty(),
            b.max_sets == 1000,
    {
        DescriptorPoolBuilder { pool_sizes: Vec::new(), max_sets: 1000 }
    }

    /// Adds room for `count` descriptors of a type.
    pub fn add_pool_size(self, descriptor_type: DescriptorType, count: u32) -> (b: DescriptorPoolBuilder)
        ensures
            b.pool_sizes@ == self.pool_sizes@.push(
                DescriptorPoolSize { ty: descriptor_type_raw(descriptor_type), descriptor_count: count },
            ),
            b.max_sets == self.max_sets,
    {
        let mut s = self;
        s.pool_sizes.push(DescriptorPoolSize { ty: descriptor_type.to_raw(), descriptor_count: count });
        s
    }

    /// Sets the maximum number of sets the pool can hold.
    pub fn max_sets(self, count: u32) -> (b: DescriptorPoolBuilder)
        ensures
            b.pool_sizes@ == self.pool_sizes@,
            b.max_sets == count,
    {
        let mut s = self;
        s.max_sets = count;
        s
    }
}

/// The buffer a descriptor refers to.
#[derive(Clone, Copy, Debug, PartialEq, Eq, Structural)]
pub struct DescriptorBufferInfo {
    /// Raw buffer handle
    pub buffer: u64,
    pub offset: u64,
    pub range: u64,
}

/// A write of a buffer descriptor into a set.
#[derive(Clone, Copy, Debug, PartialEq, Eq, Structural)]
pub struct DescriptorWrite {
    /// Raw handle of the set written (0 until the set is allocated)
    pub dst_set: u64,
    pub dst_binding: u32,
    /// Raw `VkDescriptorType`
    pub descriptor_type: i32,
    pub buffer_info: DescriptorBufferInfo,
}

/// The first binding of the layout at or after `k` with the binding number.
pub open spec fn first_binding_with(bindings: Seq<DescriptorSetBinding>, binding: u32, k: int) -> Option<int>
    decreases bindings.len() - k,
{
    if k < 0 || k >= bindings.len() {
        None
    } else if bindings[k].binding == binding {
        Some(k)
    } else {
        first_binding_with(bindings, binding, k + 1)
    }
}

/// Collects the buffer writes into a descriptor set of a layout.
pub struct DescriptorWriter {
    /// The bindings of the layout written to
    pub layout_bindings: Vec<DescriptorSetBinding>,
    /// The writes collected so far
    pub writes: Vec<DescriptorWrite>,
}

impl DescriptorWriter {
    /// A writer for a layout, with no writes.
    pub fn new(layout: &DescriptorSetLayout) -> (w: DescriptorWriter)
        ensures
            w.layout_bindings@ == layout.bindings@,
            w.writes@ == Seq::<DescriptorWrite>::empty(),
    {
        let mut copied: Vec<DescriptorSetBinding> = Vec::new();
        let mut i: usize = 0;
        while i < layout.bindings.len()
            invariant
                i <= layout.bindings.len(),
                copied@ == layout.bindings@.take(i as int),
            decreases layout.bindings.len() - i,
        {
            copied.push(layout.bindings[i]);
            assert(layout.bindings@.take(i + 1) == layout.bindings@.take(i as int).push(layout.bindings@[i as int]));
            i = i + 1;
        }
        assert(layout.bindings@.take(i as int) == layout.bindings@);
        DescriptorWriter { layout_bindings: copied, writes: Vec::new() }
    }

    /// Adds a write of a buffer to a binding of the layout. Where the layout
    /// has no such binding the writer is returned unchanged; otherwise the
    /// write takes the descriptor type of the first binding with that number.
    pub fn write_buffer(self, binding: u32, buffer_info: DescriptorBufferInfo) -> (w: DescriptorWriter)
        ensures
            w.layout_bindings@ == self.layout_bindings@,
            match first_binding_with(self.layout_bindings@, binding, 0) {
                None => w.writes@ == self.writes@,
                Some(k) => w.writes@ == self.writes@.push(DescriptorWrite {
                    dst_set: 0,
                    dst_binding: self.layout_bindings@[k].binding,
                    descriptor_type: descriptor_type_raw(self.layout_bindings@[k].ty),
                    buffer_info,
                }),
            },
    {
        let mut k: usize = 0;
        while k < self.layout_bindings.len()
            invariant
                k <= self.layout_bindings.len(),
                first_binding_with(self.layout_bindings@, binding, 0)
                    == first_binding_with(self.layout_bindings@, binding, k as int),
            decreases self.layout_bindings.len() - k,
        {
            if self.layout_bindings[k].binding == binding {
                let b = self.layout_bindings[k];
                let mut s = self;
                s.writes.push(DescriptorWrite {
                    dst_set: 0,
                    dst_binding: b.binding,
                    descriptor_type: b.ty.to_raw(),
                    buffer_info,
                });
                return s;
            }
            k = k + 1;
        }
        self
    }

    /// Points every collected write at the allocated set.
    pub fn set_destination(&mut self, set: u64)
        ensures
            final(self).layout_bindings@ == old(self).layout_bindings@,
            final(self).writes.len() == old(self).writes.len(),
            forall|i: int| 0 <= i < old(self).writes.len() ==> #[trigger] final(self).writes@[i]
                == (DescriptorWrite { dst_set: set, ..old(self).writes@[i] }),
    {
        let mut i: usize = 0;
        while i < self.writes.len()
            invariant
                i <= self.writes.len(),
                self.writes.len() == old(self).writes.len(),
                self.layout_bindings@ == old(self).layout_bindings@,
                forall|k: int| 0 <= k < i ==> #[trigger] self.writes@[k] == (DescriptorWrite { dst_set: set, ..old(self).writes@[k] }),
                forall|k: int| i <= k < self.writes.len() ==> #[trigger] self.writes@[k] == old(self).writes@[k],
            decreases self.writes.len() - i,
        {
            let w = self.writes[i];
            self.writes.set(i, DescriptorWrite { dst_set: set, ..w });
            i = i + 1;
        }
    }
}

} // verus!

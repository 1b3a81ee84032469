use magma::vulkan::descriptors::allocator::{
    AllocationAction, AllocationEvent, AllocationPhase, DescriptorAllocator, DescriptorAllocatorError,
    DescriptorType as PoolDescriptorType, NEW_POOL_SET_COUNT,
};
use magma::vulkan::descriptors::cache::{DescriptorLayoutCache, DescriptorLayoutInfo, LayoutLookup};
use magma::vulkan::descriptors::{
    DescriptorBufferInfo, DescriptorPoolBuilder, DescriptorPoolSize, DescriptorSetBinding, DescriptorSetLayout,
    DescriptorType, DescriptorWriter, LayoutBinding,
};
use magma::vulkan::device::LogicalDeviceError;
use magma::vulkan::error::VulkanError;
use magma::vulkan::flags::ShaderStageFlags;

fn lb(binding: u32, descriptor_type: i32) -> LayoutBinding {
    LayoutBinding { binding, descriptor_type, descriptor_count: 1, stage_flags: 1 }
}

fn uniform_binding(binding: u32) -> DescriptorSetBinding {
    DescriptorSetBinding { binding, ty: DescriptorType::UniformBuffer, count: 1, shader_stage_flags: ShaderStageFlags::vertex() }
}

#[test]
fn descriptor_type_raw_values() {
    assert_eq!(DescriptorType::Sampler.to_raw(), 0);
    assert_eq!(DescriptorType::UniformBuffer.to_raw(), 6);
    assert_eq!(DescriptorType::InputAttachment.to_raw(), 10);
    assert_eq!(PoolDescriptorType::StorageBufferDynamic.to_raw(), 9);
}

#[test]
fn reflected_descriptor_types() {
    assert_eq!(PoolDescriptorType::from_reflected(0), PoolDescriptorType::Sampler);
    assert_eq!(PoolDescriptorType::from_reflected(1), PoolDescriptorType::Sampler);
    assert_eq!(PoolDescriptorType::from_reflected(2), PoolDescriptorType::CombinedImageSampler);
    assert_eq!(PoolDescriptorType::from_reflected(7), PoolDescriptorType::UniformBuffer);
    assert_eq!(PoolDescriptorType::from_reflected(11), PoolDescriptorType::InputAttachment);
}

#[test]
fn layout_bindings_of_a_set_layout() {
    let layout = DescriptorSetLayout { bindings: vec![uniform_binding(0), uniform_binding(3)] };
    assert_eq!(layout.layout_bindings(), vec![LayoutBinding { binding: 0, descriptor_type: 6, descriptor_count: 1, stage_flags: 1 }, LayoutBinding { binding: 3, descriptor_type: 6, descriptor_count: 1, stage_flags: 1 }]);
}

#[test]
fn pool_builder_collects_sizes() {
    let b = DescriptorPoolBuilder::new();
    assert_eq!(b.max_sets, 1000);
    let b = b.add_pool_size(DescriptorType::UniformBuffer, 10).add_pool_size(DescriptorType::Sampler, 2).max_sets(5);
    assert_eq!(b.pool_sizes, vec![DescriptorPoolSize { ty: 6, descriptor_count: 10 }, DescriptorPoolSize { ty: 0, descriptor_count: 2 }]);
    assert_eq!(b.max_sets, 5);
}

#[test]
fn writer_writes_known_bindings_only() {
    let layout = DescriptorSetLayout { bindings: vec![uniform_binding(0), uniform_binding(2)] };
    let info = DescriptorBufferInfo { buffer: 77, offset: 0, range: 64 };
    let mut writer = DescriptorWriter::new(&layout).write_buffer(2, info).write_buffer(5, info);
    assert_eq!(writer.writes.len(), 1);
    assert_eq!(writer.writes[0].dst_binding, 2);
    assert_eq!(writer.writes[0].descriptor_type, 6);
    writer.set_destination(900);
    assert_eq!(writer.writes[0].dst_set, 900);
    assert_eq!(writer.writes[0].buffer_info, info);
}

fn step(a: &mut DescriptorAllocator, phase: AllocationPhase, event: AllocationEvent) -> (AllocationPhase, AllocationAction) {
    a.allocate_step(phase, event)
}

const AWAIT_FIRST_SET: AllocationPhase = AllocationPhase::AwaitingSet { retry: false };
const AWAIT_RETRY_SET: AllocationPhase = AllocationPhase::AwaitingSet { retry: true };

#[test]
fn allocator_takes_free_pools_last_first() {
    let mut a = DescriptorAllocator::new();
    assert_eq!(
        step(&mut a, AllocationPhase::Idle, AllocationEvent::Start),
        (AllocationPhase::AwaitingPool { retry: false }, AllocationAction::CreatePool(NEW_POOL_SET_COUNT))
    );
    assert_eq!(a.current_pool, 0);
    assert_eq!(
        step(&mut a, AllocationPhase::AwaitingPool { retry: false }, AllocationEvent::PoolCreated(10)),
        (AWAIT_FIRST_SET, AllocationAction::AllocateFrom(10))
    );
    assert_eq!(step(&mut a, AWAIT_FIRST_SET, AllocationEvent::SetAllocated(500)), (AllocationPhase::Idle, AllocationAction::Allocated(500)));
    assert_eq!(step(&mut a, AllocationPhase::Idle, AllocationEvent::Start), (AWAIT_FIRST_SET, AllocationAction::AllocateFrom(10)));
    assert_eq!(
        step(&mut a, AWAIT_FIRST_SET, AllocationEvent::SetFailed(VulkanError::OutOfPoolMemory)),
        (AllocationPhase::AwaitingPool { retry: true }, AllocationAction::CreatePool(NEW_POOL_SET_COUNT))
    );
    assert_eq!(
        step(&mut a, AllocationPhase::AwaitingPool { retry: true }, AllocationEvent::PoolCreated(11)),
        (AWAIT_RETRY_SET, AllocationAction::AllocateFrom(11))
    );
    assert_eq!(step(&mut a, AWAIT_RETRY_SET, AllocationEvent::SetAllocated(501)), (AllocationPhase::Idle, AllocationAction::Allocated(501)));
    assert!(a.holds_pool(10) && a.holds_pool(11) && !a.holds_pool(12));
    assert_eq!(a.reset_pools(), vec![10, 11]);
    assert_eq!(a.current_pool, 0);
    assert_eq!(a.free_pools, vec![10, 11]);
    assert_eq!(step(&mut a, AllocationPhase::Idle, AllocationEvent::Start), (AWAIT_FIRST_SET, AllocationAction::AllocateFrom(11)));
    assert_eq!(a.current_pool, 11);
    assert_eq!(a.pools_to_destroy(), vec![11, 10]);
    assert_eq!(NEW_POOL_SET_COUNT, 1000);
}

#[test]
fn allocation_failures_retry_only_once_and_only_when_out_of_pool_memory() {
    let mut a = DescriptorAllocator::new();
    step(&mut a, AllocationPhase::Idle, AllocationEvent::Start);
    step(&mut a, AllocationPhase::AwaitingPool { retry: false }, AllocationEvent::PoolCreated(7));
    assert_eq!(
        step(&mut a, AWAIT_FIRST_SET, AllocationEvent::SetFailed(VulkanError::FragmentedPool)),
        (
            AllocationPhase::Idle,
            AllocationAction::Failed(DescriptorAllocatorError::DeviceError(LogicalDeviceError::Other(VulkanError::FragmentedPool)))
        )
    );
    assert_eq!(a.current_pool, 7);
    assert_eq!(
        step(&mut a, AWAIT_RETRY_SET, AllocationEvent::SetFailed(VulkanError::OutOfPoolMemory)),
        (
            AllocationPhase::Idle,
            AllocationAction::Failed(DescriptorAllocatorError::DeviceError(LogicalDeviceError::Other(VulkanError::OutOfPoolMemory)))
        )
    );
    let failure = DescriptorAllocatorError::DeviceError(LogicalDeviceError::Other(VulkanError::OutOfDeviceMemory));
    assert_eq!(
        step(&mut a, AllocationPhase::AwaitingPool { retry: true }, AllocationEvent::PoolFailed(failure)),
        (AllocationPhase::Idle, AllocationAction::Failed(failure))
    );
    assert_eq!(a.current_pool, 7);
    assert_eq!(a.used_pools, vec![7]);
}

#[test]
fn layout_info_sorts_by_binding_number_stably() {
    let sorted = DescriptorLayoutInfo::new(&[lb(0, 6), lb(1, 1)]);
    assert_eq!(sorted.bindings, vec![lb(0, 6), lb(1, 1)]);
    let unsorted = DescriptorLayoutInfo::new(&[lb(2, 6), lb(0, 1), lb(2, 0), lb(1, 3)]);
    assert_eq!(unsorted.bindings, vec![lb(0, 1), lb(1, 3), lb(2, 6), lb(2, 0)]);
    assert!(!sorted.same_as(&unsorted));
    assert!(unsorted.same_as(&DescriptorLayoutInfo::new(&[lb(0, 1), lb(1, 3), lb(2, 6), lb(2, 0)])));
}

#[test]
fn hash_words_pack_each_binding() {
    let info = DescriptorLayoutInfo::new(&[LayoutBinding { binding: 1, descriptor_type: 6, descriptor_count: 2, stage_flags: 1 }]);
    assert_eq!(info.hash_words(), vec![1 | (6 << 8) | (2 << 16) | (1 << 24)]);
}

#[test]
fn cache_finds_what_was_inserted() {
    let mut cache = DescriptorLayoutCache::new();
    let info = match cache.lookup(&[lb(1, 6), lb(0, 1)]) {
        LayoutLookup::Create(info) => info,
        LayoutLookup::Cached(_) => panic!("empty cache found a layout"),
    };
    assert_eq!(info.bindings, vec![lb(0, 1), lb(1, 6)]);
    cache.insert(info, 555);
    assert!(matches!(cache.lookup(&[lb(0, 1), lb(1, 6)]), LayoutLookup::Cached(555)));
    assert!(matches!(cache.lookup(&[lb(1, 6), lb(0, 1)]), LayoutLookup::Cached(555)));
    assert!(matches!(cache.lookup(&[lb(0, 1)]), LayoutLookup::Create(_)));
    assert_eq!(cache.get(&DescriptorLayoutInfo::new(&[lb(0, 1), lb(1, 6)])), Some(555));
    assert_eq!(cache.get(&DescriptorLayoutInfo::new(&[lb(3, 1)])), None);
}

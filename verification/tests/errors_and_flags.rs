use magma::vulkan::error::{VulkanError, ERROR_OUT_OF_DATE_KHR};
use magma::vulkan::flags::{BufferUsageFlags, MemoryPropertyFlags, QueueFlags, ShaderStageFlags};

#[test]
fn raw_results_classify_to_their_errors() {
    assert_eq!(VulkanError::from_raw(-1), VulkanError::OutOfHostMemory);
    assert_eq!(VulkanError::from_raw(-2), VulkanError::OutOfDeviceMemory);
    assert_eq!(VulkanError::from_raw(-4), VulkanError::DeviceLost);
    assert_eq!(VulkanError::from_raw(-7), VulkanError::ExtensionNotPresent);
    assert_eq!(VulkanError::from_raw(-13), VulkanError::Unknown);
    assert_eq!(VulkanError::from_raw(ERROR_OUT_OF_DATE_KHR), VulkanError::OutOfDateSurface);
    assert_eq!(VulkanError::from_raw(-1_000_000_000), VulkanError::SurfaceLost);
    assert_eq!(VulkanError::from_raw(-1_000_069_000), VulkanError::OutOfPoolMemory);
    assert_eq!(VulkanError::from_raw(-1_000_257_000), VulkanError::InvalidDeviceAddress);
    assert_eq!(VulkanError::from_raw(-1_000_255_000), VulkanError::LostFullscreenAccess);
    assert_eq!(VulkanError::from_raw(1_000_001_003), VulkanError::Other(1_000_001_003));
    assert_eq!(VulkanError::from_raw(0), VulkanError::Other(0));
}

#[test]
fn queue_flags_bits_and_containment() {
    assert_eq!(QueueFlags::graphics().bits(), 1);
    assert_eq!(QueueFlags::compute().bits(), 2);
    assert_eq!(QueueFlags::transfer().bits(), 4);
    let gc = QueueFlags::from_bits(3).unwrap();
    assert!(gc.contains(QueueFlags::graphics()));
    assert!(!gc.contains(QueueFlags::transfer()));
    assert_eq!(QueueFlags::from_bits(8), None);
}

#[test]
fn shader_stage_flags_set_operations() {
    assert_eq!(ShaderStageFlags::vertex().bits(), 1);
    assert_eq!(ShaderStageFlags::fragment().bits(), 16);
    assert_eq!(ShaderStageFlags::compute().bits(), 32);
    assert_eq!(ShaderStageFlags::all_graphics().bits(), 31);
    assert!(ShaderStageFlags::empty().is_empty());
    let mut both = ShaderStageFlags::from_bits(17).unwrap();
    assert!(both.contains(ShaderStageFlags::vertex()));
    assert!(both.intersects(ShaderStageFlags::fragment()));
    assert!(!both.intersects(ShaderStageFlags::compute()));
    both.remove(ShaderStageFlags::vertex());
    assert_eq!(both, ShaderStageFlags::fragment());
    assert_eq!(ShaderStageFlags::from_bits(64), None);
}

#[test]
fn buffer_and_memory_flags() {
    assert_eq!(BufferUsageFlags::transfer_src().bits, 0x1);
    assert_eq!(BufferUsageFlags::transfer_dst().bits, 0x2);
    assert_eq!(BufferUsageFlags::uniform_buffer().bits, 0x10);
    assert_eq!(BufferUsageFlags::index_buffer().bits, 0x40);
    assert_eq!(BufferUsageFlags::vertex_buffer().bits, 0x80);
    let usage = BufferUsageFlags { bits: 0x82 };
    assert!(usage.contains(BufferUsageFlags::vertex_buffer()));
    assert!(!usage.contains(BufferUsageFlags::index_buffer()));
    assert_eq!(MemoryPropertyFlags::device_local().bits, 0x1);
    assert_eq!(MemoryPropertyFlags::host_visible().bits, 0x2);
    assert_eq!(MemoryPropertyFlags::host_coherent().bits, 0x4);
    let host = MemoryPropertyFlags { bits: 0x6 };
    assert!(host.contains(MemoryPropertyFlags::host_coherent()));
    assert!(!host.contains(MemoryPropertyFlags::device_local()));
}

use magma::vulkan::debugger::{check_validation_layers, DebugLayer, DebuggerError};
use magma::vulkan::device::{
    find_memory_type, find_queue_family, find_supported_format, unique_queue_indices, DeviceExtension,
    FormatCandidate, LogicalDeviceError, PhysicalDevice, PhysicalDeviceBuilder, PhysicalDeviceCandidate,
    PhysicalDeviceError, PhysicalDeviceType, QueueFamily, QueueFamilyIndices, QueueFamilyProperties,
    IMAGE_TILING_LINEAR, IMAGE_TILING_OPTIMAL,
};
use magma::vulkan::error::VulkanError;
use magma::vulkan::flags::{MemoryPropertyFlags, QueueFlags};
use magma::vulkan::utils::{contains_name, contains_required};

fn family(queue_count: u32, queue_flags: u32, present_support: bool) -> QueueFamilyProperties {
    QueueFamilyProperties { queue_count, queue_flags, present_support }
}

fn names(list: &[&str]) -> Vec<String> {
    list.iter().map(|s| s.to_string()).collect()
}

fn graphics_builder() -> PhysicalDeviceBuilder {
    PhysicalDeviceBuilder::new()
        .add_queue_family(QueueFamily::new(QueueFlags::graphics()))
        .add_queue_family(QueueFamily::new(QueueFlags::transfer()))
        .device_extensions(&[DeviceExtension::Swapchain])
}

#[test]
fn extension_and_layer_names() {
    assert_eq!(DeviceExtension::Swapchain.name(), "VK_KHR_swapchain");
    assert_eq!(DebugLayer::KhronosValidation.name(), "VK_LAYER_KHRONOS_validation");
    assert_eq!(DebugLayer::ApiDump.name(), "VK_LAYER_LUNARG_api_dump");
}

#[test]
fn name_lists() {
    let available = names(&["a", "b", "c"]);
    assert!(contains_name(&available, &"b".to_string()));
    assert!(!contains_name(&available, &"d".to_string()));
    assert_eq!(contains_required(&available, &names(&["c", "a"])), (false, vec![]));
    assert_eq!(contains_required(&available, &names(&["x", "a", "y"])), (true, names(&["x", "y"])));
}

#[test]
fn builder_collects_its_settings() {
    let b = PhysicalDeviceBuilder::new();
    assert!(b.queue_families.is_empty());
    assert_eq!(b.preferred_type, PhysicalDeviceType::DiscreteGPU);
    assert!(b.device_extensions.is_empty());
    let b = graphics_builder().preferred_type(PhysicalDeviceType::IntegratedGPU);
    assert_eq!(b.queue_families.len(), 2);
    assert_eq!(b.queue_families[0].index, None);
    assert_eq!(b.preferred_type, PhysicalDeviceType::IntegratedGPU);
    assert_eq!(b.device_extensions, vec![DeviceExtension::Swapchain]);
    assert_eq!(b.required_extension_names(), names(&["VK_KHR_swapchain"]));
}

#[test]
fn queue_families_take_the_first_serving_family() {
    let mut b = graphics_builder();
    let device = vec![family(0, 0x7, false), family(2, 0x4, false), family(1, 0x5, true)];
    assert!(b.find_queue_families(&device).is_ok());
    assert_eq!(b.queue_families[0].index, Some(2));
    assert_eq!(b.queue_families[1].index, Some(1));
}

#[test]
fn queue_families_missing_on_the_device_are_an_error() {
    let mut b = graphics_builder();
    let device = vec![family(1, 0x4, true)];
    assert!(matches!(b.find_queue_families(&device), Err(PhysicalDeviceError::IncompleteQueueFamilies)));
    assert_eq!(b.queue_families[0].index, None);
    assert_eq!(b.queue_families[1].index, Some(0));
}

#[test]
fn device_extension_support() {
    let b = graphics_builder();
    assert!(b.check_device_extension_support(&names(&["VK_KHR_swapchain", "other"])).is_ok());
    match b.check_device_extension_support(&names(&["other"])) {
        Err(PhysicalDeviceError::UnsupportedExtensions(missing)) => assert_eq!(missing, names(&["VK_KHR_swapchain"])),
        other => panic!("unexpected {:?}", other),
    }
}

fn candidate(device_type: PhysicalDeviceType, families: Vec<QueueFamilyProperties>, extensions: Result<Vec<String>, VulkanError>) -> PhysicalDeviceCandidate {
    PhysicalDeviceCandidate { device_type, queue_families: families, extension_names: extensions }
}

fn good(device_type: PhysicalDeviceType) -> PhysicalDeviceCandidate {
    candidate(device_type, vec![family(1, 0x5, true)], Ok(names(&["VK_KHR_swapchain"])))
}

#[test]
fn pick_physical_device_outcomes() {
    let mut b = graphics_builder();
    assert!(matches!(b.pick_physical_device(Err(VulkanError::InitializationFailed)), Err(PhysicalDeviceError::NoPhysicalDevices)));
    assert!(matches!(b.pick_physical_device(Ok(vec![])), Err(PhysicalDeviceError::NoSuitableDevice)));
    assert_eq!(b.pick_physical_device(Ok(vec![good(PhysicalDeviceType::DiscreteGPU)])).unwrap(), 0);
    assert_eq!(b.queue_families[0].index, Some(0));

    let failing = candidate(PhysicalDeviceType::DiscreteGPU, vec![family(1, 0x5, true)], Err(VulkanError::OutOfHostMemory));
    let lacking = candidate(PhysicalDeviceType::DiscreteGPU, vec![family(1, 0x5, true)], Ok(vec![]));
    let no_transfer = candidate(PhysicalDeviceType::DiscreteGPU, vec![family(1, 0x1, true)], Ok(names(&["VK_KHR_swapchain"])));
    let mut b = graphics_builder();
    assert!(matches!(b.pick_physical_device(Ok(vec![failing, lacking, no_transfer])), Err(PhysicalDeviceError::NoSuitableDevice)));
}

#[test]
fn the_first_suitable_device_is_chosen_not_the_first_device() {
    let no_transfer = candidate(PhysicalDeviceType::DiscreteGPU, vec![family(1, 0x1, true)], Ok(names(&["VK_KHR_swapchain"])));
    let served = candidate(PhysicalDeviceType::DiscreteGPU, vec![family(1, 0x4, false), family(1, 0x1, true)], Ok(names(&["VK_KHR_swapchain"])));
    let mut b = graphics_builder();
    assert_eq!(b.pick_physical_device(Ok(vec![no_transfer, served])).unwrap(), 1);
    assert_eq!(b.queue_families[0].index, Some(1));
    assert_eq!(b.queue_families[1].index, Some(0));
}

#[test]
fn the_preferred_device_type_wins_among_suitable_devices() {
    let mut b = graphics_builder();
    let devices = vec![good(PhysicalDeviceType::IntegratedGPU), good(PhysicalDeviceType::DiscreteGPU)];
    assert_eq!(b.pick_physical_device(Ok(devices)).unwrap(), 1);
    let mut b = graphics_builder().preferred_type(PhysicalDeviceType::IntegratedGPU);
    let devices = vec![good(PhysicalDeviceType::IntegratedGPU), good(PhysicalDeviceType::DiscreteGPU)];
    assert_eq!(b.pick_physical_device(Ok(devices)).unwrap(), 0);
    let mut b = graphics_builder();
    assert_eq!(b.pick_physical_device(Ok(vec![good(PhysicalDeviceType::CPU)])).unwrap(), 0);
}

#[test]
fn queue_families_are_looked_up_afresh_on_each_device() {
    let mut b = graphics_builder();
    assert!(b.find_queue_families(&vec![family(1, 0x5, true)]).is_ok());
    assert!(matches!(b.find_queue_families(&vec![family(1, 0x1, true)]), Err(PhysicalDeviceError::IncompleteQueueFamilies)));
    assert_eq!(b.queue_families[0].index, Some(0));
    assert_eq!(b.queue_families[1].index, None);
}

#[test]
fn memory_types_by_filter_and_properties() {
    let types = vec![
        MemoryPropertyFlags { bits: 0x1 },
        MemoryPropertyFlags { bits: 0x6 },
        MemoryPropertyFlags { bits: 0x7 },
    ];
    assert_eq!(find_memory_type(&types, 0b111, MemoryPropertyFlags { bits: 0x6 }), Ok(1));
    assert_eq!(find_memory_type(&types, 0b101, MemoryPropertyFlags { bits: 0x6 }), Ok(2));
    assert_eq!(find_memory_type(&types, 0b001, MemoryPropertyFlags { bits: 0x6 }), Err(LogicalDeviceError::NoSupportedMemoryType));
    let device = PhysicalDevice { extensions: vec![], queue_families: vec![], memory_types: types };
    assert_eq!(device.find_memory_type(0b111, MemoryPropertyFlags::device_local()), Ok(0));
}

#[test]
fn supported_formats_by_tiling() {
    let candidates = vec![
        FormatCandidate { format: 126, linear_tiling_features: 0x200, optimal_tiling_features: 0 },
        FormatCandidate { format: 130, linear_tiling_features: 0, optimal_tiling_features: 0x200 },
    ];
    assert_eq!(find_supported_format(&candidates, IMAGE_TILING_OPTIMAL, 0x200), Ok(130));
    assert_eq!(find_supported_format(&candidates, IMAGE_TILING_LINEAR, 0x200), Ok(126));
    assert_eq!(find_supported_format(&candidates, IMAGE_TILING_LINEAR, 0x400), Err(LogicalDeviceError::NoSupportedFormat));
}

#[test]
fn one_queue_per_distinct_family_index() {
    let families = vec![
        QueueFamily { ty: QueueFlags::graphics(), index: Some(0) },
        QueueFamily { ty: QueueFlags::transfer(), index: Some(2) },
        QueueFamily { ty: QueueFlags::compute(), index: Some(0) },
    ];
    assert_eq!(unique_queue_indices(&families), vec![0, 2]);
}

#[test]
fn physical_device_queue_family_lookup() {
    let device = PhysicalDevice {
        extensions: vec![DeviceExtension::Swapchain],
        queue_families: vec![
            QueueFamily { ty: QueueFlags::transfer(), index: Some(1) },
            QueueFamily { ty: QueueFlags { bits: 0x3 }, index: Some(0) },
        ],
        memory_types: vec![],
    };
    assert_eq!(device.enabled_extensions(), &[DeviceExtension::Swapchain]);
    assert_eq!(device.queue_families().len(), 2);
    assert_eq!(device.queue_family(QueueFlags::graphics()).map(|f| f.index), Some(Some(0)));
    assert_eq!(device.queue_family(QueueFlags::transfer()).map(|f| f.index), Some(Some(1)));
    assert!(device.queue_family(QueueFlags { bits: 0x6 }).is_none());
}

#[test]
fn three_family_indices() {
    let families = vec![family(1, 0x1, false), family(1, 0x4, true)];
    let indices = find_queue_family(&families);
    assert_eq!(indices, QueueFamilyIndices { graphics_family: Some(0), present_family: Some(1), transfer_family: Some(1) });
    assert!(indices.is_complete());
    let partial = find_queue_family(&vec![family(1, 0x1, true)]);
    assert_eq!(partial.transfer_family, None);
    assert!(!partial.is_complete());
}

#[test]
fn validation_layers_check() {
    let supported = names(&["VK_LAYER_KHRONOS_validation"]);
    assert!(check_validation_layers(&supported, &[DebugLayer::KhronosValidation]).is_ok());
    match check_validation_layers(&supported, &[DebugLayer::ApiDump, DebugLayer::KhronosValidation]) {
        Err(DebuggerError::MissingValidationLayers(missing)) => assert_eq!(missing, names(&["VK_LAYER_LUNARG_api_dump"])),
        other => panic!("unexpected {:?}", other),
    }
}

use magma::render::{
    find_queue_family, get_alignment, is_device_suitable, model_allowed, pick_physical_device,
    push_constant_range, swapchain_recreatable, upload_allowed, BufferUsage, FrameStart, FrameState,
    QueueFamilyIndices,
};
use magma::vulkan::device::QueueFamilyProperties;
use magma::vulkan::error::VulkanError;

fn family(queue_count: u32, queue_flags: u32, present_support: bool) -> QueueFamilyProperties {
    QueueFamilyProperties { queue_count, queue_flags, present_support }
}

#[test]
fn indices_complete_only_with_both_families() {
    let both = QueueFamilyIndices { graphics_family: Some(0), present_family: Some(1) };
    let one = QueueFamilyIndices { graphics_family: Some(0), present_family: None };
    assert!(both.is_complete());
    assert!(!one.is_complete());
}

#[test]
fn unique_families_drop_the_repeat() {
    let same = QueueFamilyIndices { graphics_family: Some(2), present_family: Some(2) };
    assert_eq!(same.unique_families(), vec![2]);
    let distinct = QueueFamilyIndices { graphics_family: Some(0), present_family: Some(3) };
    assert_eq!(distinct.unique_families(), vec![0, 3]);
}

#[test]
fn find_queue_family_stops_at_the_first_complete_pair() {
    let families = vec![family(1, 0x2, false), family(1, 0x1, false), family(2, 0x3, true), family(1, 0x1, true)];
    let indices = find_queue_family(&families);
    assert_eq!(indices.graphics_family, Some(2));
    assert_eq!(indices.present_family, Some(2));
}

#[test]
fn find_queue_family_ignores_empty_families() {
    let families = vec![family(0, 0x1, true), family(1, 0x1, false)];
    let indices = find_queue_family(&families);
    assert_eq!(indices.graphics_family, Some(1));
    assert_eq!(indices.present_family, None);
}

#[test]
fn device_suitability_needs_families_formats_and_modes() {
    let both = QueueFamilyIndices { graphics_family: Some(0), present_family: Some(0) };
    assert!(is_device_suitable(&both, 2, 1));
    assert!(!is_device_suitable(&both, 0, 1));
    assert!(!is_device_suitable(&both, 2, 0));
    let none = QueueFamilyIndices { graphics_family: None, present_family: Some(0) };
    assert!(!is_device_suitable(&none, 2, 1));
}

#[test]
fn pick_physical_device_takes_the_first_suitable() {
    assert_eq!(pick_physical_device(&vec![false, true, true]), Some(1));
    assert_eq!(pick_physical_device(&vec![false, false]), None);
    assert_eq!(pick_physical_device(&vec![]), None);
}

#[test]
fn alignment_rounds_up_to_the_power_of_two() {
    assert_eq!(get_alignment(100, 64), 128);
    assert_eq!(get_alignment(128, 64), 128);
    assert_eq!(get_alignment(1, 256), 256);
    assert_eq!(get_alignment(100, 0), 100);
}

#[test]
fn buffer_rules() {
    assert_eq!(BufferUsage::Vertex.to_raw(), 0x80);
    assert_eq!(BufferUsage::Indices.to_raw(), 0x40);
    assert!(!upload_allowed(BufferUsage::Vertex, 2));
    assert!(upload_allowed(BufferUsage::Vertex, 3));
    assert!(upload_allowed(BufferUsage::Indices, 1));
    assert!(!model_allowed(2));
    assert!(model_allowed(3));
    assert_eq!(push_constant_range(1, 0), None);
    assert_eq!(push_constant_range(1, 64), Some((1, 0, 64)));
    assert!(!swapchain_recreatable(0, 600));
    assert!(!swapchain_recreatable(800, 0));
    assert!(swapchain_recreatable(800, 600));
}

#[test]
fn frame_begins_on_the_acquired_image_and_ends() {
    let mut frames = FrameState::new(vec![11, 22, 33]);
    assert_eq!(frames.begin_frame(Ok((1, false))), FrameStart::Started(22));
    assert!(frames.is_frame_started);
    assert_eq!(frames.get_current_command_buffer(), 22);
    assert!(frames.render_pass_allowed(22));
    assert!(!frames.render_pass_allowed(11));
    assert!(!frames.end_frame(Ok(false)));
    assert!(!frames.is_frame_started);
    assert!(!frames.render_pass_allowed(22));
}

#[test]
fn suboptimal_or_failed_frames_recreate_the_swapchain() {
    let mut frames = FrameState::new(vec![11, 22]);
    assert_eq!(frames.begin_frame(Ok((0, true))), FrameStart::RecreateSwapchain);
    assert!(!frames.is_frame_started);
    assert_eq!(frames.begin_frame(Err(VulkanError::OutOfDateSurface)), FrameStart::RecreateSwapchain);
    assert_eq!(frames.begin_frame(Ok((0, false))), FrameStart::Started(11));
    assert!(frames.end_frame(Ok(true)));
    frames.begin_frame(Ok((1, false)));
    assert!(frames.end_frame(Err(VulkanError::OutOfDateSurface)));
}

#[test]
fn command_buffers_are_replaced_when_the_count_changes() {
    let mut frames = FrameState::new(vec![1, 2]);
    assert!(!frames.needs_new_command_buffers(2));
    assert!(frames.needs_new_command_buffers(3));
    frames.set_command_buffers(vec![4, 5, 6]);
    assert_eq!(frames.command_buffers, vec![4, 5, 6]);
}

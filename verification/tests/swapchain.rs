use magma::vulkan::device::{DeviceExtension, QueueFamily};
use magma::vulkan::flags::QueueFlags;
use magma::vulkan::swapchain::{
    acquired_image, check_surface_device, choose_extent_for, choose_format_for, choose_image_count,
    choose_mailbox_present_mode, choose_present_mode_for, choose_srgb_format, clamp_u32, find_graphics_family,
    has_swapchain_extension, swapchain_queue_family_indices, ColorFormat, Extent2D, FrameSync, PresentMode,
    SurfaceCapabilities, SurfaceError, SurfaceFormat, SwapchainBuilder, SwapchainError, FORMAT_B8G8R8A8_SRGB,
    FORMAT_B8G8R8A8_UNORM, MAX_FRAMES_IN_FLIGHT, PRESENT_MODE_FIFO, PRESENT_MODE_IMMEDIATE, PRESENT_MODE_MAILBOX,
};

fn caps(current: (u32, u32), min: (u32, u32), max: (u32, u32), counts: (u32, u32)) -> SurfaceCapabilities {
    SurfaceCapabilities {
        min_image_count: counts.0,
        max_image_count: counts.1,
        current_extent: Extent2D { width: current.0, height: current.1 },
        min_image_extent: Extent2D { width: min.0, height: min.1 },
        max_image_extent: Extent2D { width: max.0, height: max.1 },
    }
}

fn graphics() -> QueueFamily {
    QueueFamily { ty: QueueFlags::graphics(), index: Some(0) }
}

#[test]
fn raw_values_of_preferences() {
    assert_eq!(ColorFormat::Srgb.to_raw(), 50);
    assert_eq!(ColorFormat::Unorm.to_raw(), 44);
    assert_eq!(PresentMode::Immediate.to_raw(), 0);
    assert_eq!(PresentMode::Mailbox.to_raw(), 1);
    assert_eq!(PresentMode::Fifo.to_raw(), 2);
    assert_eq!(PresentMode::FifoRelaxed.to_raw(), 3);
}

#[test]
fn format_choice_prefers_the_wanted_format_in_srgb_space() {
    let wrong_space = SurfaceFormat { format: FORMAT_B8G8R8A8_SRGB, color_space: 7 };
    let unorm = SurfaceFormat { format: FORMAT_B8G8R8A8_UNORM, color_space: 0 };
    let srgb = SurfaceFormat { format: FORMAT_B8G8R8A8_SRGB, color_space: 0 };
    assert_eq!(choose_format_for(&[wrong_space, unorm, srgb], FORMAT_B8G8R8A8_SRGB), srgb);
    assert_eq!(choose_srgb_format(&[wrong_space, unorm]), wrong_space);
    let b = SwapchainBuilder::new();
    assert_eq!(b.choose_format(&[wrong_space, srgb, unorm]), unorm);
}

#[test]
fn present_mode_choice_falls_back_to_fifo() {
    assert_eq!(choose_present_mode_for(&[0, 1, 2], PRESENT_MODE_IMMEDIATE), PRESENT_MODE_IMMEDIATE);
    assert_eq!(choose_mailbox_present_mode(&[0, 2]), PRESENT_MODE_FIFO);
    assert_eq!(choose_mailbox_present_mode(&[2, 1]), PRESENT_MODE_MAILBOX);
    let b = SwapchainBuilder::new().preferred_present_mode(PresentMode::Mailbox);
    assert_eq!(b.choose_present_mode(&[1]), PRESENT_MODE_MAILBOX);
    assert_eq!(b.choose_present_mode(&[]), PRESENT_MODE_FIFO);
}

#[test]
fn extent_is_current_or_clamped_default() {
    assert_eq!(clamp_u32(5, 10, 20), 10);
    assert_eq!(clamp_u32(25, 10, 20), 20);
    assert_eq!(clamp_u32(15, 10, 20), 15);
    let fixed = caps((1024, 768), (1, 1), (4096, 4096), (2, 0));
    assert_eq!(choose_extent_for(&fixed, 1280, 720), Extent2D { width: 1024, height: 768 });
    let free = caps((u32::MAX, u32::MAX), (100, 100), (1000, 500), (2, 0));
    assert_eq!(choose_extent_for(&free, 1280, 720), Extent2D { width: 1000, height: 500 });
    assert_eq!(SwapchainBuilder::new().choose_extent(&free), Extent2D { width: 800, height: 500 });
}

#[test]
fn image_count_is_one_above_minimum_within_maximum() {
    assert_eq!(choose_image_count(&caps((1, 1), (1, 1), (1, 1), (2, 0))), 3);
    assert_eq!(choose_image_count(&caps((1, 1), (1, 1), (1, 1), (2, 8))), 3);
    assert_eq!(choose_image_count(&caps((1, 1), (1, 1), (1, 1), (3, 3))), 3);
}

#[test]
fn builder_preferences() {
    let b = SwapchainBuilder::new();
    assert_eq!(b.preferred_color_format, ColorFormat::Unorm);
    assert_eq!(b.preferred_present_mode, PresentMode::Fifo);
    let b = b.preferred_color_format(ColorFormat::Srgb);
    assert_eq!(b.preferred_color_format, ColorFormat::Srgb);
    assert_eq!(b.preferred_present_mode, PresentMode::Fifo);
}

#[test]
fn device_checks_for_swapchains_and_surfaces() {
    let b = SwapchainBuilder::new();
    let transfer = QueueFamily { ty: QueueFlags::transfer(), index: Some(1) };
    assert!(has_swapchain_extension(&[DeviceExtension::Swapchain]));
    assert!(!has_swapchain_extension(&[]));
    assert_eq!(find_graphics_family(&[transfer, graphics()]), Some(1));
    assert_eq!(b.check_device(&[], &[graphics()]), Err(SwapchainError::DeviceNotCapable));
    assert_eq!(
        b.check_device(&[DeviceExtension::Swapchain], &[transfer]),
        Err(SwapchainError::MissingQueueFamily(QueueFlags::graphics()))
    );
    assert_eq!(b.check_device(&[DeviceExtension::Swapchain], &[graphics()]), Ok(()));
    assert_eq!(check_surface_device(&[], &[graphics()]), Err(SurfaceError::DeviceNotCapable));
    assert_eq!(
        check_surface_device(&[DeviceExtension::Swapchain], &[transfer]),
        Err(SurfaceError::MissingQueueFamily(QueueFlags::graphics()))
    );
    assert_eq!(check_surface_device(&[DeviceExtension::Swapchain], &[transfer, graphics()]), Ok(1));
}

#[test]
fn swapchain_shares_images_with_every_family() {
    let transfer = QueueFamily { ty: QueueFlags::transfer(), index: Some(2) };
    assert_eq!(swapchain_queue_family_indices(&[graphics(), transfer]), vec![0, 2]);
}

#[test]
fn acquiring_a_suboptimal_image_is_an_error() {
    assert_eq!(acquired_image(2, false), Ok(2));
    assert_eq!(acquired_image(2, true), Err(SwapchainError::Suboptimal));
}

#[test]
fn frame_slots_cycle_and_images_remember_their_fence() {
    let mut sync = FrameSync::new(vec![100, 200], 3);
    assert_eq!(sync.images_in_flight, vec![0, 0, 0]);
    assert_eq!(sync.image_fence_to_wait(1), None);
    assert_eq!(sync.mark_image_in_flight(1), 100);
    assert_eq!(sync.image_fence_to_wait(1), Some(100));
    sync.advance_frame();
    assert_eq!(sync.current_frame, 1);
    assert_eq!(sync.mark_image_in_flight(1), 200);
    assert_eq!(sync.image_fence_to_wait(1), Some(200));
    for _ in 0..MAX_FRAMES_IN_FLIGHT - 1 {
        sync.advance_frame();
    }
    assert_eq!(sync.current_frame, 0);
}

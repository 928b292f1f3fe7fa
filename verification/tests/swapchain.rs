use vulkan_app::error::{SetupError, SuitabilityError, Unsuitability, VulkanError};
use vulkan_app::model::{
    Extent2D, SurfaceCapabilities, SurfaceFormat, COLOR_SPACE_SRGB_NONLINEAR, FORMAT_B8G8R8A8_SRGB,
    PRESENT_MODE_FIFO, PRESENT_MODE_MAILBOX,
};
use vulkan_app::queues::{QueueFamilyIndices, SharingMode};
use vulkan_app::swapchain::{
    create_swapchain, get_swapchain_extent, get_swapchain_present_mode, get_swapchain_surface_format,
    swapchain_image_count, SwapchainSupport,
};

fn caps(min: u32, max: u32, current: Extent2D, lo: Extent2D, hi: Extent2D) -> SurfaceCapabilities {
    SurfaceCapabilities {
        min_image_count: min,
        max_image_count: max,
        current_extent: current,
        min_image_extent: lo,
        max_image_extent: hi,
        max_image_array_layers: 1,
        supported_transforms: 1,
        current_transform: 1,
        supported_composite_alpha: 1,
        supported_usage_flags: 0x10,
    }
}

fn ext(width: u32, height: u32) -> Extent2D {
    Extent2D { width, height }
}

const UNORM: SurfaceFormat = SurfaceFormat { format: 44, color_space: 0 };
const SRGB_OTHER_SPACE: SurfaceFormat = SurfaceFormat { format: FORMAT_B8G8R8A8_SRGB, color_space: 1000104014 };
const PREFERRED: SurfaceFormat =
    SurfaceFormat { format: FORMAT_B8G8R8A8_SRGB, color_space: COLOR_SPACE_SRGB_NONLINEAR };

#[test]
fn surface_format_prefers_srgb_bgra() {
    assert_eq!(get_swapchain_surface_format(&[UNORM, SRGB_OTHER_SPACE, PREFERRED]), PREFERRED);
}

#[test]
fn surface_format_falls_back_to_first() {
    assert_eq!(get_swapchain_surface_format(&[UNORM, SRGB_OTHER_SPACE]), UNORM);
    assert_eq!(get_swapchain_surface_format(&[SRGB_OTHER_SPACE]), SRGB_OTHER_SPACE);
}

#[test]
fn chosen_format_is_one_offered() {
    let offered = [SRGB_OTHER_SPACE, UNORM];
    assert!(offered.contains(&get_swapchain_surface_format(&offered)));
}

#[test]
fn present_mode_prefers_mailbox() {
    assert_eq!(get_swapchain_present_mode(&[0, 2, 1, 3]), PRESENT_MODE_MAILBOX);
}

#[test]
fn present_mode_falls_back_to_fifo() {
    assert_eq!(get_swapchain_present_mode(&[0, 2, 3]), PRESENT_MODE_FIFO);
    assert_eq!(get_swapchain_present_mode(&[]), PRESENT_MODE_FIFO);
}

#[test]
fn chosen_present_mode_is_supported() {
    for modes in [vec![2], vec![0, 2], vec![1, 2], vec![3, 2, 1]] {
        let mode = get_swapchain_present_mode(&modes);
        assert!(modes.contains(&mode));
    }
}

#[test]
fn extent_fixed_by_surface_is_kept() {
    let c = caps(2, 8, ext(800, 600), ext(1, 1), ext(4096, 4096));
    assert_eq!(get_swapchain_extent(ext(1024, 768), c), ext(800, 600));
}

#[test]
fn free_extent_takes_window_size_within_bounds() {
    let c = caps(2, 8, ext(u32::MAX, u32::MAX), ext(1, 1), ext(4096, 4096));
    assert_eq!(get_swapchain_extent(ext(1024, 768), c), ext(1024, 768));
}

#[test]
fn free_extent_is_clamped() {
    let c = caps(2, 8, ext(u32::MAX, 0), ext(100, 200), ext(640, 480));
    assert_eq!(get_swapchain_extent(ext(1024, 50), c), ext(640, 200));
    assert_eq!(get_swapchain_extent(ext(10, 768), c), ext(100, 480));
}

#[test]
fn image_count_is_one_more_than_minimum() {
    assert_eq!(swapchain_image_count(&caps(2, 8, ext(1, 1), ext(1, 1), ext(1, 1))), 3);
    assert_eq!(swapchain_image_count(&caps(2, 0, ext(1, 1), ext(1, 1), ext(1, 1))), 3);
}

#[test]
fn image_count_is_capped_by_maximum() {
    assert_eq!(swapchain_image_count(&caps(2, 2, ext(1, 1), ext(1, 1), ext(1, 1))), 2);
    assert_eq!(swapchain_image_count(&caps(3, 3, ext(1, 1), ext(1, 1), ext(1, 1))), 3);
}

#[test]
fn swapchain_support_gathers_queries() {
    let c = caps(2, 8, ext(1, 1), ext(1, 1), ext(1, 1));
    let s = SwapchainSupport::get(Ok(c), Ok(vec![PREFERRED]), Ok(vec![2])).unwrap();
    assert_eq!(s.capabilites, c);
    assert_eq!(s.formats, vec![PREFERRED]);
    assert_eq!(s.present_modes, vec![2]);
}

#[test]
fn swapchain_support_reports_first_failed_query() {
    let c = caps(2, 8, ext(1, 1), ext(1, 1), ext(1, 1));
    let r = SwapchainSupport::get(Err(VulkanError(-3)), Err(VulkanError(-1)), Err(VulkanError(-2)));
    assert_eq!(r.err(), Some(SetupError::Vulkan(VulkanError(-3))));
    let r = SwapchainSupport::get(Ok(c), Err(VulkanError(-1)), Err(VulkanError(-2)));
    assert_eq!(r.err(), Some(SetupError::Vulkan(VulkanError(-1))));
    let r = SwapchainSupport::get(Ok(c), Ok(vec![]), Err(VulkanError(-2)));
    assert_eq!(r.err(), Some(SetupError::Vulkan(VulkanError(-2))));
}

#[test]
fn swapchain_plan_with_distinct_families_is_concurrent() {
    let c = caps(2, 8, ext(u32::MAX, u32::MAX), ext(1, 1), ext(4096, 4096));
    let support = SwapchainSupport { capabilites: c, formats: vec![UNORM, PREFERRED], present_modes: vec![2, 1] };
    let plan = create_swapchain(Ok(QueueFamilyIndices { graphics: 0, present: 2 }), Ok(support), ext(1024, 768))
        .ok()
        .unwrap();
    assert_eq!(plan.surface_format, PREFERRED);
    assert_eq!(plan.present_mode, PRESENT_MODE_MAILBOX);
    assert_eq!(plan.extent, ext(1024, 768));
    assert_eq!(plan.image_count, 3);
    assert_eq!(plan.image_sharing_mode, SharingMode::Concurrent);
    assert_eq!(plan.queue_family_indices, vec![0, 2]);
    assert_eq!(plan.pre_transform, 1);
    assert_eq!(plan.image_array_layers, 1);
    assert_eq!(plan.image_usage, 0x10);
    assert_eq!(plan.composite_alpha, 1);
    assert!(plan.clipped);
    assert_eq!(plan.old_swapchain, 0);
}

#[test]
fn swapchain_plan_with_one_family_is_exclusive() {
    let c = caps(3, 3, ext(800, 600), ext(1, 1), ext(4096, 4096));
    let support = SwapchainSupport { capabilites: c, formats: vec![UNORM], present_modes: vec![0] };
    let plan = create_swapchain(Ok(QueueFamilyIndices { graphics: 1, present: 1 }), Ok(support), ext(1024, 768))
        .ok()
        .unwrap();
    assert_eq!(plan.surface_format, UNORM);
    assert_eq!(plan.present_mode, PRESENT_MODE_FIFO);
    assert_eq!(plan.extent, ext(800, 600));
    assert_eq!(plan.image_count, 3);
    assert_eq!(plan.image_sharing_mode, SharingMode::Exclusive);
    assert!(plan.queue_family_indices.is_empty());
}

#[test]
fn swapchain_plan_reports_query_errors_in_order() {
    let missing = SetupError::Unsuitable(SuitabilityError(Unsuitability::MissingQueueFamilies));
    let r = create_swapchain(Err(missing), Err(SetupError::Vulkan(VulkanError(-4))), ext(1, 1));
    assert_eq!(r.err(), Some(missing));
    let r = create_swapchain(
        Ok(QueueFamilyIndices { graphics: 0, present: 0 }),
        Err(SetupError::Vulkan(VulkanError(-4))),
        ext(1, 1),
    );
    assert_eq!(r.err(), Some(SetupError::Vulkan(VulkanError(-4))));
}

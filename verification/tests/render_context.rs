use ash::vk::DebugUtilsMessageSeverityFlagsEXT as S;
use grass_rendering::rendering::render_context::{debug_message_level, MessageLevel};
use grass_rendering::rendering::render_context::{
    choose_swapchain_extent, choose_swapchain_format, choose_swapchain_min_image_count,
    choose_swapchain_present_mode, device_meets_requirements, device_score, find_graphics_queue_family, first_unsupported,
    is_available, pick_physical_device, PhysicalDeviceInfo, SurfaceCapabilities,
};
use grass_rendering::rendering::vulkan;

fn names(list: &[&str]) -> Vec<Vec<u8>> {
    list.iter().map(|s| s.as_bytes().to_vec()).collect()
}

fn good_device(device_type: i32) -> PhysicalDeviceInfo {
    PhysicalDeviceInfo {
        api_version: vulkan::API_VERSION_1_3,
        device_type,
        queue_family_flags: vec![0x4, 0x3],
        extension_names: names(&["VK_KHR_maintenance1", "VK_KHR_swapchain"]),
        sampler_anisotropy: true,
        extended_dynamic_state: true,
        scalar_block_layout: true,
        dynamic_rendering: true,
        synchronization2: true,
    }
}

#[test]
fn unsupported_names() {
    let available = names(&["VK_EXT_debug_utils", "VK_KHR_surface"]);
    assert!(is_available(&b"VK_KHR_surface".to_vec(), &available));
    assert!(!is_available(&b"VK_KHR_surf".to_vec(), &available));
    assert_eq!(first_unsupported(&names(&["VK_EXT_debug_utils"]), &available), None);
    assert_eq!(
        first_unsupported(&names(&["VK_KHR_surface", "VK_LAYER_KHRONOS_validation", "x"]), &available),
        Some(1)
    );
    assert_eq!(first_unsupported(&Vec::new(), &Vec::new()), None);
}

#[test]
fn device_scores_by_type() {
    let req = names(&["VK_KHR_swapchain"]);
    assert_eq!(device_score(&good_device(vulkan::PHYSICAL_DEVICE_TYPE_DISCRETE_GPU), &req), Some(4));
    assert_eq!(device_score(&good_device(vulkan::PHYSICAL_DEVICE_TYPE_INTEGRATED_GPU), &req), Some(3));
    assert_eq!(device_score(&good_device(vulkan::PHYSICAL_DEVICE_TYPE_VIRTUAL_GPU), &req), Some(2));
    assert_eq!(device_score(&good_device(vulkan::PHYSICAL_DEVICE_TYPE_CPU), &req), Some(1));
    assert_eq!(device_score(&good_device(vulkan::PHYSICAL_DEVICE_TYPE_OTHER), &req), Some(0));
}

#[test]
fn device_missing_requirement_has_no_score() {
    let req = names(&["VK_KHR_swapchain"]);
    let mut d = good_device(vulkan::PHYSICAL_DEVICE_TYPE_DISCRETE_GPU);
    d.api_version = vulkan::API_VERSION_1_3 - 1;
    assert_eq!(device_score(&d, &req), None);
    let mut d = good_device(vulkan::PHYSICAL_DEVICE_TYPE_DISCRETE_GPU);
    d.queue_family_flags = vec![0x2, 0x4];
    assert_eq!(device_score(&d, &req), None);
    let mut d = good_device(vulkan::PHYSICAL_DEVICE_TYPE_DISCRETE_GPU);
    d.extension_names = names(&["VK_KHR_maintenance1"]);
    assert_eq!(device_score(&d, &req), None);
    let mut d = good_device(vulkan::PHYSICAL_DEVICE_TYPE_DISCRETE_GPU);
    d.synchronization2 = false;
    assert_eq!(device_score(&d, &req), None);
}

#[test]
fn pick_takes_best_score_last_among_equals() {
    assert_eq!(pick_physical_device(&vec![Some(3), Some(4), None]), 1);
    assert_eq!(pick_physical_device(&vec![Some(4), Some(1), Some(4)]), 2);
    // with no suitable device, the last one is taken, as `max_by_key` does
    assert_eq!(pick_physical_device(&vec![None, None]), 1);
    assert_eq!(pick_physical_device(&vec![Some(0), None]), 0);
}

#[test]
fn graphics_queue_family() {
    assert_eq!(find_graphics_queue_family(&vec![0x1, 0x3, 0x1], &vec![false, true, true]), Some(1));
    assert_eq!(find_graphics_queue_family(&vec![0x2, 0x4], &vec![true, true]), None);
    assert_eq!(find_graphics_queue_family(&vec![], &vec![]), None);
}

#[test]
fn swapchain_format_prefers_bgra_srgb() {
    let other = vulkan::SurfaceFormat { format: 44, color_space: vulkan::COLOR_SPACE_SRGB_NONLINEAR };
    let preferred = vulkan::SurfaceFormat { format: vulkan::FORMAT_B8G8R8A8_SRGB, color_space: vulkan::COLOR_SPACE_SRGB_NONLINEAR };
    let wrong_space = vulkan::SurfaceFormat { format: vulkan::FORMAT_B8G8R8A8_SRGB, color_space: 1_000_104_002 };
    assert_eq!(choose_swapchain_format(&vec![other, wrong_space, preferred]), preferred);
    assert_eq!(choose_swapchain_format(&vec![wrong_space, other]), wrong_space);
}

#[test]
fn present_mode_is_fifo() {
    assert_eq!(choose_swapchain_present_mode(), vulkan::PRESENT_MODE_FIFO);
}

fn caps(current: vulkan::Extent2D, min: vulkan::Extent2D, max: vulkan::Extent2D, min_count: u32, max_count: u32) -> SurfaceCapabilities {
    SurfaceCapabilities {
        min_image_count: min_count,
        max_image_count: max_count,
        current_extent: current,
        min_image_extent: min,
        max_image_extent: max,
    }
}

#[test]
fn swapchain_extent_uses_surface_extent_when_set() {
    let c = caps(vulkan::Extent2D { width: 800, height: 600 }, vulkan::Extent2D { width: 1, height: 1 }, vulkan::Extent2D { width: 4096, height: 4096 }, 2, 8);
    assert_eq!(choose_swapchain_extent(c, vulkan::Extent2D { width: 1024, height: 768 }), vulkan::Extent2D { width: 800, height: 600 });
}

#[test]
fn swapchain_extent_clamps_window_size() {
    let c = caps(vulkan::Extent2D { width: u32::MAX, height: u32::MAX }, vulkan::Extent2D { width: 100, height: 100 }, vulkan::Extent2D { width: 1000, height: 500 }, 2, 8);
    assert_eq!(choose_swapchain_extent(c, vulkan::Extent2D { width: 1920, height: 50 }), vulkan::Extent2D { width: 1000, height: 100 });
    assert_eq!(choose_swapchain_extent(c, vulkan::Extent2D { width: 640, height: 480 }), vulkan::Extent2D { width: 640, height: 480 });
}

#[test]
fn min_image_count_rules() {
    let e = vulkan::Extent2D { width: 1, height: 1 };
    assert_eq!(choose_swapchain_min_image_count(caps(e, e, e, 2, 0)), 3);
    assert_eq!(choose_swapchain_min_image_count(caps(e, e, e, 4, 0)), 4);
    assert_eq!(choose_swapchain_min_image_count(caps(e, e, e, 1, 2)), 2);
    assert_eq!(choose_swapchain_min_image_count(caps(e, e, e, 2, 8)), 3);
}

#[test]
fn validation_message_levels() {
    assert_eq!(debug_message_level(S::VERBOSE.as_raw()), MessageLevel::Trace);
    assert_eq!(debug_message_level(S::INFO.as_raw()), MessageLevel::Info);
    assert_eq!(debug_message_level(S::WARNING.as_raw()), MessageLevel::Warn);
    assert_eq!(debug_message_level(S::ERROR.as_raw()), MessageLevel::Error);
    assert_eq!(debug_message_level((S::ERROR | S::WARNING).as_raw()), MessageLevel::Warn);
}

#[test]
fn requirements_checked_apart_from_device_type() {
    let req = names(&["VK_KHR_swapchain"]);
    // an unknown device type does not matter to the requirements
    assert!(device_meets_requirements(&good_device(7), &req));
    let mut d = good_device(vulkan::PHYSICAL_DEVICE_TYPE_CPU);
    d.dynamic_rendering = false;
    assert!(!device_meets_requirements(&d, &req));
    assert_eq!(device_score(&d, &req), None);
    let d = good_device(vulkan::PHYSICAL_DEVICE_TYPE_CPU);
    assert!(!device_meets_requirements(&d, &names(&["VK_KHR_swapchain", "VK_EXT_mesh_shader"])));
}

use rc::error::EngineError;
use rc::vulkan::device::check_device_extension_support;
use rc::vulkan::device::device_create_info;
use rc::vulkan::device::find_queue_families;
use rc::vulkan::device::is_device_suitable;
use rc::vulkan::device::pick_physical_device;
use rc::vulkan::device::queue_family_indices;
use rc::vulkan::instance::check_validation_layer_support;
use rc::vulkan::instance::check_vk_result;
use rc::vulkan::instance::debug_callback;
use rc::vulkan::instance::get_required_extensions;
use rc::vulkan::instance::instance_create_info;
use rc::vulkan::instance::populate_debug_messenger_create_info;
use rc::vulkan::instance::Profile;
use rc::vulkan::instance::validation_layers;
use rc::vulkan::instance::vk_result_message;
use rc::vulkan::instance::ResultCheck;
use rc::vulkan::instance::VK_FALSE;
use rc::vulkan::swapchain::choose_swap_extent;
use rc::vulkan::swapchain::choose_swap_present_mode;
use rc::vulkan::swapchain::choose_swap_surface_format;
use rc::vulkan::swapchain::image_view_create_info;
use rc::vulkan::swapchain::swap_chain_create_info;
use rc::vulkan::swapchain::swap_chain_image_count;
use rc::vulkan::types::DeviceEntry;
use rc::vulkan::types::DeviceRead;
use rc::vulkan::types::Extent2D;
use rc::vulkan::types::PhysicalDeviceInfo;
use rc::vulkan::types::QueueFamily;
use rc::vulkan::types::SurfaceCapabilities;
use rc::vulkan::types::SurfaceFormat;
use rc::vulkan::types::swap_chain_support_details;

fn fam(flags: u32, present: bool) -> QueueFamily {
    QueueFamily { queue_flags: flags, present_support: present }
}

fn names(v: &[&str]) -> Vec<String> {
    v.iter().map(|s| s.to_string()).collect()
}

fn caps(max_images: u32, current: Extent2D) -> SurfaceCapabilities {
    SurfaceCapabilities {
        min_image_count: 2,
        max_image_count: max_images,
        current_extent: current,
        min_image_extent: Extent2D { width: 100, height: 50 },
        max_image_extent: Extent2D { width: 1000, height: 500 },
        current_transform: 1,
    }
}

pub fn device(families: Vec<QueueFamily>, extensions: &[&str], formats: Vec<SurfaceFormat>, modes: Vec<i32>) -> PhysicalDeviceInfo {
    PhysicalDeviceInfo {
        queue_families: families,
        extensions: names(extensions),
        swap_chain_support: swap_chain_support_details {
            capabilities: caps(3, Extent2D { width: 640, height: 480 }),
            formats,
            present_modes: modes,
        },
    }
}

fn read_of(info: PhysicalDeviceInfo) -> DeviceRead {
    DeviceRead { queue_families: info.queue_families, swap_chain_support: info.swap_chain_support }
}

fn good_device() -> PhysicalDeviceInfo {
    device(
        vec![fam(0x1, true)],
        &["VK_KHR_swapchain"],
        vec![SurfaceFormat { format: 44, color_space: 0 }],
        vec![2],
    )
}

#[test]
fn queue_family_indices_start_empty() {
    let q = queue_family_indices::new();
    assert_eq!(q.graphics_family, None);
    assert_eq!(q.preset_family, None);
    assert!(!q.is_complete());
    let q = queue_family_indices { graphics_family: Some(0), preset_family: Some(3) };
    assert!(q.is_complete());
}

#[test]
fn queue_families_latest_until_complete() {
    // graphics moves to the later graphics family until present is found
    let r = find_queue_families(&vec![fam(0x1, false), fam(0x3, false), fam(0x4, true), fam(0x1, true)]);
    assert_eq!((r.graphics_family, r.preset_family), (Some(1), Some(2)));
    let r = find_queue_families(&vec![fam(0x1, true), fam(0x1, true)]);
    assert_eq!((r.graphics_family, r.preset_family), (Some(0), Some(0)));
    let r = find_queue_families(&vec![fam(0x2, true), fam(0x4, true)]);
    assert_eq!((r.graphics_family, r.preset_family), (None, Some(1)));
    let r = find_queue_families(&vec![]);
    assert_eq!((r.graphics_family, r.preset_family), (None, None));
}

#[test]
fn extension_and_layer_checks() {
    assert!(check_device_extension_support(&names(&["a", "VK_KHR_swapchain"])));
    assert!(!check_device_extension_support(&names(&["VK_KHR_swapchain_x"])));
    assert!(check_validation_layer_support(&names(&["VK_LAYER_KHRONOS_validation"])));
    assert!(!check_validation_layer_support(&names(&[])));
    assert_eq!(validation_layers(), names(&["VK_LAYER_KHRONOS_validation"]));
    let ext = get_required_extensions(Profile::Full);
    assert_eq!(ext.len(), 15);
    assert_eq!(ext[5], "VK_EXT_debug_utils");
    assert_eq!(ext[14], "VK_KHR_win32_surface");
}

#[test]
fn device_suitability() {
    assert!(is_device_suitable(&good_device()));
    let mut d = good_device();
    d.extensions.clear();
    assert!(!is_device_suitable(&d));
    let mut d = good_device();
    d.swap_chain_support.present_modes.clear();
    assert!(!is_device_suitable(&d));
    let mut d = good_device();
    d.queue_families = vec![fam(0x1, false)];
    assert!(!is_device_suitable(&d));
}

#[test]
fn pick_first_suitable_device() {
    assert_eq!(pick_physical_device(&vec![]), Err(EngineError::NoVulkanGpu));
    let mut bad = good_device();
    bad.swap_chain_support.formats.clear();
    let list = vec![
        DeviceEntry { handle: 10, info: bad },
        DeviceEntry { handle: 11, info: good_device() },
        DeviceEntry { handle: 12, info: good_device() },
    ];
    assert_eq!(pick_physical_device(&list), Ok(1));
    let mut bad = good_device();
    bad.queue_families.clear();
    assert_eq!(pick_physical_device(&vec![DeviceEntry { handle: 1, info: bad }]), Err(EngineError::NoSuitableGpu));
}

#[test]
fn logical_device_description() {
    let same = device_create_info(&queue_family_indices { graphics_family: Some(2), preset_family: Some(2) });
    assert_eq!(same.queue_families, vec![2]);
    assert_eq!(same.queue_count, 1);
    assert_eq!(same.enabled_extensions, names(&["VK_KHR_swapchain"]));
    assert_eq!(same.enabled_layers, names(&["VK_LAYER_KHRONOS_validation"]));
    let split = device_create_info(&queue_family_indices { graphics_family: Some(0), preset_family: Some(1) });
    assert_eq!(split.queue_families, vec![0, 1]);
}

#[test]
fn surface_format_choice() {
    let f = |format, color_space| SurfaceFormat { format, color_space };
    assert_eq!(*choose_swap_surface_format(&[f(44, 0), f(50, 1), f(50, 0), f(50, 0)]), f(50, 0));
    assert_eq!(*choose_swap_surface_format(&[f(44, 0), f(37, 0)]), f(44, 0));
}

#[test]
fn present_mode_choice() {
    assert_eq!(choose_swap_present_mode(&vec![0, 2, 1]), 1);
    assert_eq!(choose_swap_present_mode(&vec![0, 3]), 2);
    assert_eq!(choose_swap_present_mode(&vec![]), 2);
}

#[test]
fn swap_extent_choice() {
    let fixed = caps(3, Extent2D { width: 640, height: 480 });
    assert_eq!(choose_swap_extent(&fixed, 9999, 9999), Extent2D { width: 640, height: 480 });
    let open = caps(3, Extent2D { width: u32::MAX, height: 0 });
    assert_eq!(choose_swap_extent(&open, 800, 600), Extent2D { width: 800, height: 500 });
    assert_eq!(choose_swap_extent(&open, 20, 60), Extent2D { width: 100, height: 60 });
    // a negative drawable size reads as a huge unsigned one
    assert_eq!(choose_swap_extent(&open, -1, 70), Extent2D { width: 1000, height: 70 });
}

#[test]
fn swap_image_count() {
    assert_eq!(swap_chain_image_count(&caps(3, Extent2D { width: 1, height: 1 })), 3);
    assert_eq!(swap_chain_image_count(&caps(0, Extent2D { width: 1, height: 1 })), 1);
}

#[test]
fn swap_chain_description() {
    let d = device(
        vec![fam(0x1, false), fam(0x0, true)],
        &["VK_KHR_swapchain"],
        vec![SurfaceFormat { format: 50, color_space: 0 }],
        vec![1, 2],
    );
    let info = swap_chain_create_info(&read_of(d), 0, 0);
    assert_eq!(info.min_image_count, 3);
    assert_eq!((info.image_format, info.image_color_space), (50, 0));
    assert_eq!(info.image_extent, Extent2D { width: 640, height: 480 });
    assert_eq!(info.image_array_layers, 1);
    assert_eq!(info.image_usage, 0x10);
    assert_eq!(info.image_sharing_mode, 1);
    assert_eq!(info.queue_family_indices, vec![0, 1]);
    assert_eq!(info.pre_transform, 1);
    assert_eq!(info.composite_alpha, 1);
    assert_eq!(info.present_mode, 1);
    assert!(info.clipped);
    let shared = swap_chain_create_info(&read_of(good_device()), 0, 0);
    assert_eq!(shared.image_sharing_mode, 0);
    assert!(shared.queue_family_indices.is_empty());
    assert_eq!(shared.present_mode, 2);
}

#[test]
fn image_view_description() {
    let v = image_view_create_info(77, 50);
    assert_eq!((v.image, v.view_type, v.format), (77, 1, 50));
    assert_eq!((v.swizzle_r, v.swizzle_g, v.swizzle_b, v.swizzle_a), (0, 0, 0, 0));
    assert_eq!((v.aspect_mask, v.base_mip_level, v.level_count, v.base_array_layer, v.layer_count), (1, 0, 1, 0, 1));
}

#[test]
fn instance_description() {
    assert!(matches!(instance_create_info(Profile::Full, &names(&[])), Err(EngineError::ValidationLayersUnavailable)));
    let info = instance_create_info(Profile::Full, &names(&["x", "VK_LAYER_KHRONOS_validation"])).ok().unwrap();
    assert_eq!(info.application.application_name, "SDL Vulkan App");
    assert_eq!(info.application.engine_name, "No Engine");
    assert_eq!(info.application.application_version, 4194304);
    assert_eq!(info.application.api_version, 4194304);
    assert_eq!(info.enabled_extensions, get_required_extensions(Profile::Full));
    assert_eq!(info.enabled_layers, names(&["VK_LAYER_KHRONOS_validation"]));
    let dbg = info.debug_messenger.unwrap();
    assert_eq!((dbg.message_severity, dbg.message_type), (0x1101, 0x7));
    assert_eq!(populate_debug_messenger_create_info(), dbg);
}

#[test]
fn vk_result_classes() {
    assert_eq!(check_vk_result(0), ResultCheck::Success);
    assert_eq!(check_vk_result(5), ResultCheck::Report);
    assert_eq!(check_vk_result(-4), ResultCheck::Fatal);
}

#[test]
fn debug_callback_lines() {
    assert_eq!(debug_callback(Profile::Full, Some("hello".to_string())), ("***ValidationLayer: hello".to_string(), VK_FALSE));
    assert_eq!(debug_callback(Profile::Full, None).0, "***ValidationLayer: <null>");
    assert_eq!(debug_callback(Profile::Minimal, Some("hi".to_string())).0, "Debug callback: hi");
    assert_eq!(debug_callback(Profile::Minimal, None).1, VK_FALSE);
}

#[test]
fn engine_error_messages() {
    assert_eq!(EngineError::NoSuitableGpu.message(), "failed to find a suitable gpu!");
    assert_eq!(EngineError::SurfaceMissing.message(), "failed to create vulkan surface 2!");
    assert_eq!(EngineError::ValidationLayersUnavailable.message(), "validation layers requested, but not available!");
}

#[test]
fn minimal_instance_description() {
    assert_eq!(get_required_extensions(Profile::Minimal), names(&["VK_EXT_debug_utils"]));
    let info = instance_create_info(Profile::Minimal, &names(&["VK_LAYER_KHRONOS_validation"])).ok().unwrap();
    assert_eq!(info.application.application_version, 1);
    assert_eq!(info.application.engine_version, 1);
    assert_eq!(info.application.api_version, 1);
    assert_eq!(info.enabled_extensions, names(&["VK_EXT_debug_utils"]));
    assert!(info.debug_messenger.is_some());
}

#[test]
fn vk_result_report_lines() {
    assert_eq!(vk_result_message(-4), "Error: VkResult = -4");
    assert_eq!(vk_result_message(1000001003), "Error: VkResult = 1000001003");
    assert_eq!(vk_result_message(0), "Error: VkResult = 0");
    assert_eq!(vk_result_message(i32::MIN), format!("Error: VkResult = {}", i32::MIN));
    assert_eq!(vk_result_message(i32::MAX), format!("Error: VkResult = {}", i32::MAX));
}

use rc::engine::app;
use rc::engine::Action;
use rc::engine::Event;
use rc::engine::Phase;
use rc::engine::Release;
use rc::error::EngineError;
use rc::vulkan::types::DeviceEntry;
use rc::vulkan::types::DeviceRead;
use rc::vulkan::types::Extent2D;
use rc::vulkan::types::PhysicalDeviceInfo;
use rc::vulkan::types::QueueFamily;
use rc::vulkan::types::SurfaceCapabilities;
use rc::vulkan::types::SurfaceFormat;
use rc::vulkan::types::swap_chain_support_details;

fn gpu(current_width: u32) -> PhysicalDeviceInfo {
    PhysicalDeviceInfo {
        queue_families: vec![
            QueueFamily { queue_flags: 0x1, present_support: false },
            QueueFamily { queue_flags: 0x0, present_support: true },
        ],
        extensions: vec!["VK_KHR_swapchain".to_string()],
        swap_chain_support: swap_chain_support_details {
            capabilities: SurfaceCapabilities {
                min_image_count: 1,
                max_image_count: 2,
                current_extent: Extent2D { width: current_width, height: 480 },
                min_image_extent: Extent2D { width: 1, height: 1 },
                max_image_extent: Extent2D { width: 4096, height: 4096 },
                current_transform: 1,
            },
            formats: vec![SurfaceFormat { format: 50, color_space: 0 }],
            present_modes: vec![2],
        },
    }
}

fn read_of(info: PhysicalDeviceInfo) -> DeviceRead {
    DeviceRead { queue_families: info.queue_families, swap_chain_support: info.swap_chain_support }
}

fn up_to_devices(e: &mut app) {
    assert!(matches!(e.run(Event::Start), Action::InitWindow(_)));
    assert!(matches!(e.run(Event::WindowCreated(7)), Action::QueryLayers));
    let layers = vec!["VK_LAYER_KHRONOS_validation".to_string()];
    assert!(matches!(e.run(Event::LayersQueried(layers)), Action::CreateInstance(_)));
    assert!(matches!(e.run(Event::InstanceCreated(8)), Action::CreateDebugMessenger(_)));
    assert!(matches!(e.run(Event::DebugMessengerCreated(9)), Action::CreateSurface));
    assert!(matches!(e.run(Event::SurfaceCreated(10)), Action::EnumerateDevices));
}

#[test]
fn app_new_is_blank() {
    let e = app::new();
    assert_eq!(e.phase, Phase::Start);
    assert_eq!((e.window, e.instance, e.device, e.swap_chain), (0, 0, 0, 0));
    assert!(e.swap_chain_images.is_empty() && e.swap_chain_image_views.is_empty());
}

#[test]
fn app_run_full_bring_up() {
    let mut e = app::new();
    match e.run(Event::Start) {
        Action::InitWindow(c) => {
            assert_eq!(c.init_flags, 0x2021);
            assert_eq!(c.title, "SDL Vulkan App");
            assert_eq!((c.x, c.y, c.width, c.height), (400, 50, 800, 600));
            assert_eq!(c.window_flags, 0x1000_2020);
        }
        _ => panic!("expected the window first"),
    }
    assert!(matches!(e.run(Event::WindowCreated(7)), Action::QueryLayers));
    let layers = vec!["VK_LAYER_KHRONOS_validation".to_string()];
    assert!(matches!(e.run(Event::LayersQueried(layers)), Action::CreateInstance(_)));
    assert!(matches!(e.run(Event::InstanceCreated(8)), Action::CreateDebugMessenger(_)));
    assert!(matches!(e.run(Event::DebugMessengerCreated(9)), Action::CreateSurface));
    assert!(matches!(e.run(Event::SurfaceCreated(10)), Action::EnumerateDevices));
    let devices = vec![DeviceEntry { handle: 11, info: gpu(640) }];
    match e.run(Event::DevicesEnumerated(devices)) {
        Action::CreateDevice { physical_device, info, graphics_family, present_family } => {
            assert_eq!(physical_device, 11);
            assert_eq!(info.queue_families, vec![0, 1]);
            assert_eq!((graphics_family, present_family), (0, 1));
        }
        _ => panic!("expected the logical device"),
    }
    match e.run(Event::DeviceCreated { device: 12, graphics_queue: 13, present_queue: 14 }) {
        Action::ReadDevice { physical_device } => assert_eq!(physical_device, 11),
        _ => panic!("expected the device to be read again"),
    }
    // the swap chain follows the fresh read, not the one made when listing devices
    let mut fresh = gpu(640);
    fresh.swap_chain_support.capabilities.max_image_count = 5;
    fresh.swap_chain_support.capabilities.current_extent = Extent2D { width: 320, height: 200 };
    match e.run(Event::DeviceRead(read_of(fresh))) {
        Action::CreateSwapChain(info) => {
            assert_eq!(info.image_extent, Extent2D { width: 320, height: 200 });
            assert_eq!(info.min_image_count, 5);
        }
        _ => panic!("expected the swap chain"),
    }
    match e.run(Event::SwapChainCreated { swap_chain: 15, images: vec![20, 21] }) {
        Action::CreateImageView(v) => assert_eq!((v.image, v.format), (20, 50)),
        _ => panic!("expected a view"),
    }
    match e.run(Event::ImageViewCreated(30)) {
        Action::CreateImageView(v) => assert_eq!(v.image, 21),
        _ => panic!("expected a view"),
    }
    assert!(matches!(e.run(Event::ImageViewCreated(31)), Action::Wait { seconds: 4 }));
    match e.run(Event::Waited) {
        Action::CleanUp(plan) => assert_eq!(
            plan,
            vec![
                Release::ImageView(30),
                Release::ImageView(31),
                Release::SwapChain(15),
                Release::Device(12),
                Release::DebugMessenger(9),
                Release::Surface(10),
                Release::Instance(8),
                Release::Window(7),
                Release::QuitSdl,
            ]
        ),
        _ => panic!("expected the clean-up"),
    }
    assert!(matches!(e.run(Event::CleanedUp), Action::Finish));
    assert_eq!(e.phase, Phase::Done);
    assert_eq!((e.graphics_queue, e.preset_queue, e.physical_device), (13, 14, 11));
}

#[test]
fn app_asks_drawable_size_when_surface_leaves_it_open() {
    let mut e = app::new();
    up_to_devices(&mut e);
    let devices = vec![DeviceEntry { handle: 11, info: gpu(u32::MAX) }];
    assert!(matches!(e.run(Event::DevicesEnumerated(devices)), Action::CreateDevice { .. }));
    assert!(matches!(e.run(Event::DeviceCreated { device: 1, graphics_queue: 2, present_queue: 3 }), Action::ReadDevice { .. }));
    assert!(matches!(e.run(Event::DeviceRead(read_of(gpu(u32::MAX)))), Action::QueryDrawableSize));
    match e.run(Event::DrawableSize(5000, 300)) {
        Action::CreateSwapChain(info) => assert_eq!(info.image_extent, Extent2D { width: 4096, height: 300 }),
        _ => panic!("expected the swap chain"),
    }
    assert!(matches!(e.run(Event::SwapChainCreated { swap_chain: 4, images: vec![] }), Action::Wait { .. }));
}

#[test]
fn app_failures_end_the_bring_up() {
    let mut e = app::new();
    e.run(Event::Start);
    assert!(matches!(e.run(Event::WindowCreated(0)), Action::Fail { error: EngineError::WindowCreationFailed, quit_sdl: true }));
    assert_eq!(e.phase, Phase::Failed);

    let mut e = app::new();
    e.run(Event::Start);
    e.run(Event::WindowCreated(3));
    assert!(matches!(
        e.run(Event::LayersQueried(vec![])),
        Action::Fail { error: EngineError::ValidationLayersUnavailable, quit_sdl: false }
    ));

    let mut e = app::new();
    up_to_devices(&mut e);
    assert!(matches!(e.run(Event::DevicesEnumerated(vec![])), Action::Fail { error: EngineError::NoVulkanGpu, .. }));

    let mut e = app::new();
    up_to_devices(&mut e);
    let mut weak = gpu(1);
    weak.extensions.clear();
    let devices = vec![DeviceEntry { handle: 1, info: weak }];
    assert!(matches!(e.run(Event::DevicesEnumerated(devices)), Action::Fail { error: EngineError::NoSuitableGpu, .. }));

    let mut e = app::new();
    e.run(Event::Start);
    e.run(Event::WindowCreated(3));
    e.run(Event::LayersQueried(vec!["VK_LAYER_KHRONOS_validation".to_string()]));
    e.run(Event::InstanceCreated(4));
    e.run(Event::DebugMessengerCreated(5));
    assert!(matches!(e.run(Event::SurfaceCreated(0)), Action::Fail { error: EngineError::SurfaceMissing, .. }));
}

#[test]
fn app_minimal_bring_up() {
    let mut e = app::minimal();
    assert!(matches!(e.run(Event::Start), Action::InitWindow(_)));
    assert!(matches!(e.run(Event::WindowCreated(7)), Action::QueryLayers));
    let layers = vec!["VK_LAYER_KHRONOS_validation".to_string()];
    match e.run(Event::LayersQueried(layers)) {
        Action::CreateInstance(info) => assert_eq!(info.enabled_extensions, vec!["VK_EXT_debug_utils".to_string()]),
        _ => panic!("expected the instance"),
    }
    assert!(matches!(e.run(Event::InstanceCreated(8)), Action::CreateDebugMessenger(_)));
    assert!(matches!(e.run(Event::DebugMessengerCreated(9)), Action::Wait { seconds: 4 }));
    match e.run(Event::Waited) {
        Action::CleanUp(plan) => assert_eq!(plan, vec![Release::Instance(8), Release::Window(7), Release::QuitSdl]),
        _ => panic!("expected the clean-up"),
    }
    assert!(matches!(e.run(Event::CleanedUp), Action::Finish));
}

//! The bring-up of the window and the Vulkan device as a sequence of steps.
//!
//! The engine never touches the window system or the driver itself. `run`
//! takes the outcome of the last step it asked for and answers with the next
//! step: create the window, create the instance and its debug messenger,
//! create the surface, pick a physical device, create the logical device,
//! the swap chain and one view per swap-chain image, wait, then release
//! everything. The minimal bring-up stops after the debug messenger and goes
//! straight to the wait. Any failed step ends the bring-up.
use vstd::prelude::*;

use crate::error::EngineError;
use crate::vulkan::device::device_create_info;
use crate::vulkan::device::device_info_spec;
use crate::vulkan::device::device_suitable;
use crate::vulkan::device::family_counts_fit;
use crate::vulkan::device::first_suitable;
use crate::vulkan::device::families_found;
use crate::vulkan::device::find_queue_families;
use crate::vulkan::device::pick_physical_device;
use crate::vulkan::device::DeviceCreateInfo;
use crate::vulkan::instance::enable_validation_layers;
use crate::vulkan::instance::instance_create_info;
use crate::vulkan::instance::instance_info_spec;
use crate::vulkan::instance::layers_supported;
use crate::vulkan::instance::populate_debug_messenger_create_info;
use crate::vulkan::instance::DebugMessengerCreateInfo;
use crate::vulkan::instance::Profile;
use crate::vulkan::instance::InstanceCreateInfo;
use crate::vulkan::swapchain::image_view_create_info;
use crate::vulkan::swapchain::image_view_create_info_spec;
use crate::vulkan::swapchain::needs_drawable_size;
use crate::vulkan::swapchain::swap_chain_create_info;
use crate::vulkan::swapchain::swap_chain_info_spec;
use crate::vulkan::swapchain::swap_chain_read_fits;
use crate::vulkan::swapchain::ImageViewCreateInfo;
use crate::vulkan::swapchain::SwapChainCreateInfo;
use crate::vulkan::types::DeviceEntry;
use crate::vulkan::types::DeviceRead;
use crate::vulkan::types::Extent2D;
use crate::vulkan::types::PhysicalDeviceInfo;

verus! {

pub const SDL_INIT_TIMER: u32 = 0x1;
pub const SDL_INIT_VIDEO: u32 = 0x20;
pub const SDL_INIT_GAMECONTROLLER: u32 = 0x2000;
pub const SDL_WINDOW_RESIZABLE: u32 = 0x20;
pub const SDL_WINDOW_ALLOW_HIGHDPI: u32 = 0x2000;
pub const SDL_WINDOW_VULKAN: u32 = 0x1000_0000;

/// The window's title, position and size.
pub const WINDOW_X: i32 = 400;
pub const WINDOW_Y: i32 = 50;
pub const Width: i32 = 800;
pub const Height: i32 = 600;

/// How long the main loop keeps the window up, in seconds.
pub const MAIN_LOOP_SECONDS: u64 = 4;

/// Where the bring-up stands: which step's outcome it waits for.
#[derive(Debug, Clone, Copy, PartialEq, Eq, Structural)]
pub enum Phase {
    Start,
    AwaitWindow,
    AwaitLayers,
    AwaitInstance,
    AwaitDebugMessenger,
    AwaitSurface,
    AwaitDevices,
    AwaitDevice,
    AwaitDeviceRead,
    AwaitDrawableSize,
    AwaitSwapChain,
    AwaitImageView,
    AwaitMainLoop,
    AwaitCleanUp,
    Done,
    Failed,
}

/// How SDL is started and the window opened.
pub struct WindowConfig {
    pub init_flags: u32,
    pub title: String,
    pub x: i32,
    pub y: i32,
    pub width: i32,
    pub height: i32,
    pub window_flags: u32,
}

/// One step of the release at the end.
#[derive(Debug, Clone, Copy, PartialEq, Eq, Structural)]
pub enum Release {
    ImageView(u64),
    SwapChain(u64),
    Device(u64),
    DebugMessenger(u64),
    Surface(u64),
    Instance(u64),
    Window(u64),
    QuitSdl,
}

/// The outcome of the step the engine asked for.
pub enum Event {
    Start,
    SdlInitFailed,
    /// The window, or 0 when SDL could not create it.
    WindowCreated(u64),
    LayersQueried(Vec<String>),
    InstanceCreated(u64),
    InstanceFailed,
    DebugMessengerCreated(u64),
    DebugMessengerMissing,
    /// The surface, or 0 when SDL reported success without one.
    SurfaceCreated(u64),
    SurfaceFailed,
    DevicesEnumerated(Vec<DeviceEntry>),
    DeviceCreated { device: u64, graphics_queue: u64, present_queue: u64 },
    DeviceFailed,
    /// The chosen device read again, after its logical device exists.
    DeviceRead(DeviceRead),
    DrawableSize(i32, i32),
    SwapChainCreated { swap_chain: u64, images: Vec<u64> },
    SwapChainFailed,
    ImageViewCreated(u64),
    ImageViewFailed,
    Waited,
    CleanedUp,
}

/// The next step.
pub enum Action {
    InitWindow(WindowConfig),
    QueryLayers,
    CreateInstance(InstanceCreateInfo),
    CreateDebugMessenger(DebugMessengerCreateInfo),
    CreateSurface,
    EnumerateDevices,
    CreateDevice { physical_device: u64, info: DeviceCreateInfo, graphics_family: u32, present_family: u32 },
    /// Read the chosen device's queue families and surface support again.
    ReadDevice { physical_device: u64 },
    QueryDrawableSize,
    CreateSwapChain(SwapChainCreateInfo),
    CreateImageView(ImageViewCreateInfo),
    Wait { seconds: u64 },
    /// Release, in this order.
    CleanUp(Vec<Release>),
    Finish,
    /// Stop the program with `error`; quit SDL first when `quit_sdl`.
    Fail { error: EngineError, quit_sdl: bool },
}

/// Whether `e` answers the step that `phase` waits for.
pub open spec fn accepts(phase: Phase, e: Event) -> bool {
    match phase {
        Phase::Start => e is Start,
        Phase::AwaitWindow => e is SdlInitFailed || e is WindowCreated,
        Phase::AwaitLayers => e is LayersQueried,
        Phase::AwaitInstance => e is InstanceCreated || e is InstanceFailed,
        Phase::AwaitDebugMessenger => e is DebugMessengerCreated || e is DebugMessengerMissing,
        Phase::AwaitSurface => e is SurfaceCreated || e is SurfaceFailed,
        Phase::AwaitDevices => e is DevicesEnumerated,
        Phase::AwaitDevice => e is DeviceCreated || e is DeviceFailed,
        Phase::AwaitDeviceRead => e is DeviceRead,
        Phase::AwaitDrawableSize => e is DrawableSize,
        Phase::AwaitSwapChain => e is SwapChainCreated || e is SwapChainFailed,
        Phase::AwaitImageView => e is ImageViewCreated || e is ImageViewFailed,
        Phase::AwaitMainLoop => e is Waited,
        Phase::AwaitCleanUp => e is CleanedUp,
        Phase::Done => false,
        Phase::Failed => false,
    }
}

/// What `run` needs of an event besides its fitting the phase: the driver's
/// lists fit its 32-bit counts, and the fresh read of the chosen device is
/// one from which the swap chain can be described.
pub open spec fn event_fits(pre: app, e: Event) -> bool {
    match e {
        Event::DevicesEnumerated(devices) => family_counts_fit(devices@),
        Event::DeviceRead(read) => swap_chain_read_fits(read),
        _ => true,
    }
}

/// The engine's state: the phase, and the handles created so far (0 while
/// not created).
pub struct app {
    pub profile: Profile,
    pub phase: Phase,
    pub window: u64,
    pub instance: u64,
    pub debug_messenger: u64,
    pub surface: u64,
    pub physical_device: u64,
    pub device: u64,
    pub graphics_queue: u64,
    pub preset_queue: u64,
    pub swap_chain: u64,
    pub swap_chain_images: Vec<u64>,
    pub swap_chain_image_format: i32,
    pub swap_chain_extent: Extent2D,
    pub swap_chain_image_views: Vec<u64>,
    /// What was read of the chosen physical device when the devices were listed.
    pub chosen: Option<PhysicalDeviceInfo>,
    /// What was read of it again once its logical device existed.
    pub device_read: Option<DeviceRead>,
}



impl app {
    /// The state is consistent with its phase.
    pub open spec fn wf(&self) -> bool {
        &&& (self.phase is AwaitDrawableSize || self.phase is AwaitSwapChain) ==> {
            &&& self.device_read is Some
            &&& swap_chain_read_fits(self.device_read->0)
        }
        &&& !(self.phase is AwaitImageView || self.phase is AwaitMainLoop || self.phase is AwaitCleanUp
            || self.phase is Done || self.phase is Failed) ==> self.swap_chain_image_views@.len() == 0
            && self.swap_chain_images@.len() == 0
        &&& self.phase is AwaitImageView ==> self.swap_chain_image_views@.len()
            < self.swap_chain_images@.len()
        &&& (self.phase is AwaitMainLoop || self.phase is AwaitCleanUp || self.phase is Done)
            ==> self.swap_chain_image_views@.len() == self.swap_chain_images@.len()
    }

    /// Nothing created yet; the bring-up of `profile` has not started.
    fn blank(profile: Profile) -> (r: Self)
        ensures
            r.wf(),
            r.profile == profile,
            r.phase == Phase::Start,
            r.window == 0 && r.instance == 0 && r.debug_messenger == 0 && r.surface == 0,
            r.physical_device == 0 && r.device == 0 && r.graphics_queue == 0 && r.preset_queue == 0,
            r.swap_chain == 0 && r.swap_chain_image_format == 0,
            r.swap_chain_extent == (Extent2D { width: 0, height: 0 }),
            r.swap_chain_images@.len() == 0 && r.swap_chain_image_views@.len() == 0,
            r.chosen is None,
            r.device_read is None,
    {
        Self {
            profile,
            phase: Phase::Start,
            window: 0,
            instance: 0,
            debug_messenger: 0,
            surface: 0,
            physical_device: 0,
            device: 0,
            graphics_queue: 0,
            preset_queue: 0,
            swap_chain: 0,
            swap_chain_images: Vec::new(),
            swap_chain_image_format: 0,
            swap_chain_extent: Extent2D { width: 0, height: 0 },
            swap_chain_image_views: Vec::new(),
            chosen: None,
            device_read: None,
        }
    }

    /// The full bring-up, not started: nothing created yet.
    pub fn new() -> (r: Self)
        ensures
            r.wf(),
            r.profile == Profile::Full,
            r.phase == Phase::Start,
            r.window == 0 && r.instance == 0 && r.debug_messenger == 0 && r.surface == 0,
            r.physical_device == 0 && r.device == 0 && r.graphics_queue == 0 && r.preset_queue == 0,
            r.swap_chain == 0 && r.swap_chain_image_format == 0,
            r.swap_chain_extent == (Extent2D { width: 0, height: 0 }),
            r.swap_chain_images@.len() == 0 && r.swap_chain_image_views@.len() == 0,
            r.chosen is None,
            r.device_read is None,
    {
        Self::blank(Profile::Full)
    }

    /// The minimal bring-up (window, instance, debug messenger), not
    /// started: nothing created yet.
    pub fn minimal() -> (r: Self)
        ensures
            r.wf(),
            r.profile == Profile::Minimal,
            r.phase == Phase::Start,
            r.window == 0 && r.instance == 0 && r.debug_messenger == 0 && r.surface == 0,
            r.physical_device == 0 && r.device == 0 && r.graphics_queue == 0 && r.preset_queue == 0,
            r.swap_chain == 0 && r.swap_chain_image_format == 0,
            r.swap_chain_extent == (Extent2D { width: 0, height: 0 }),
            r.swap_chain_images@.len() == 0 && r.swap_chain_image_views@.len() == 0,
            r.chosen is None,
            r.device_read is None,
    {
        Self::blank(Profile::Minimal)
    }

    /// Ends the bring-up with `error`.
    fn fail(&mut self, error: EngineError, quit_sdl: bool) -> (a: Action)
        ensures
            *final(self) == (app { phase: Phase::Failed, ..*old(self) }),
            a == (Action::Fail { error, quit_sdl }),
    {
        self.phase = Phase::Failed;
        Action::Fail { error, quit_sdl }
    }

    /// Asks for the swap chain from the fresh read of the chosen device.
    fn ask_swap_chain(&mut self, drawable_width: i32, drawable_height: i32) -> (a: Action)
        requires
            old(self).device_read is Some,
            swap_chain_read_fits(old(self).device_read->0),
        ensures
            a matches Action::CreateSwapChain(info) && swap_chain_info_spec(
                old(self).device_read->0,
                drawable_width,
                drawable_height,
                info,
            ) && *final(self) == (app {
                phase: Phase::AwaitSwapChain,
                swap_chain_image_format: info.image_format,
                swap_chain_extent: info.image_extent,
                ..*old(self)
            }),
    {
        let info = match &self.device_read {
            Some(device) => swap_chain_create_info(device, drawable_width, drawable_height),
            None => {
                assert(false);
                return Action::Finish;
            },
        };
        self.phase = Phase::AwaitSwapChain;
        self.swap_chain_image_format = info.image_format;
        self.swap_chain_extent = info.image_extent;
        Action::CreateSwapChain(info)
    }
}

impl app {
    /// Takes the outcome of the step asked for last and answers with the
    /// next step.
    pub fn run(&mut self, event: Event) -> (a: Action)
        requires
            old(self).wf(),
            accepts(old(self).phase, event),
            event_fits(*old(self), event),
        ensures
            final(self).wf(),
            step_ok(*old(self), event, *final(self), a),
    {
        match event {
            Event::Start => {
                self.phase = Phase::AwaitWindow;
                let config = WindowConfig {
                    init_flags: SDL_INIT_VIDEO | SDL_INIT_TIMER | SDL_INIT_GAMECONTROLLER,
                    title: "SDL Vulkan App".to_owned(),
                    x: WINDOW_X,
                    y: WINDOW_Y,
                    width: Width,
                    height: Height,
                    window_flags: SDL_WINDOW_VULKAN | SDL_WINDOW_RESIZABLE | SDL_WINDOW_ALLOW_HIGHDPI,
                };
                Action::InitWindow(config)
            },
            Event::SdlInitFailed => self.fail(EngineError::SdlInitFailed, false),
            Event::WindowCreated(w) => {
                if w == 0 {
                    return self.fail(EngineError::WindowCreationFailed, true);
                }
                self.window = w;
                if enable_validation_layers {
                    self.phase = Phase::AwaitLayers;
                    Action::QueryLayers
                } else {
                    match instance_create_info(self.profile, &Vec::new()) {
                        Ok(info) => {
                            self.phase = Phase::AwaitInstance;
                            Action::CreateInstance(info)
                        },
                        Err(e) => self.fail(e, false),
                    }
                }
            },
            Event::LayersQueried(names) => {
                match instance_create_info(self.profile, &names) {
                    Ok(info) => {
                        self.phase = Phase::AwaitInstance;
                        Action::CreateInstance(info)
                    },
                    Err(e) => self.fail(e, false),
                }
            },
            Event::InstanceCreated(h) => {
                self.instance = h;
                if enable_validation_layers {
                    self.phase = Phase::AwaitDebugMessenger;
                    Action::CreateDebugMessenger(populate_debug_messenger_create_info())
                } else {
                    self.after_debug_messenger()
                }
            },
            Event::InstanceFailed => self.fail(EngineError::InstanceCreationFailed, false),
            Event::DebugMessengerCreated(h) => {
                self.debug_messenger = h;
                self.after_debug_messenger()
            },
            Event::DebugMessengerMissing => self.fail(EngineError::DebugMessengerNotFound, false),
            Event::SurfaceCreated(h) => {
                if h == 0 {
                    return self.fail(EngineError::SurfaceMissing, false);
                }
                self.surface = h;
                self.phase = Phase::AwaitDevices;
                Action::EnumerateDevices
            },
            Event::SurfaceFailed => self.fail(EngineError::SurfaceCreationFailed, false),
            Event::DevicesEnumerated(devices) => self.choose_device(devices),
            Event::DeviceCreated { device, graphics_queue, present_queue } => {
                self.device = device;
                self.graphics_queue = graphics_queue;
                self.preset_queue = present_queue;
                self.phase = Phase::AwaitDeviceRead;
                Action::ReadDevice { physical_device: self.physical_device }
            },
            Event::DeviceRead(read) => {
                let needs_size = read.swap_chain_support.capabilities.current_extent.width == u32::MAX;
                self.device_read = Some(read);
                if needs_size {
                    self.phase = Phase::AwaitDrawableSize;
                    Action::QueryDrawableSize
                } else {
                    self.ask_swap_chain(0, 0)
                }
            },
            Event::DeviceFailed => self.fail(EngineError::LogicalDeviceCreationFailed, false),
            Event::DrawableSize(w, h) => self.ask_swap_chain(w, h),
            Event::SwapChainCreated { swap_chain, images } => {
                self.swap_chain = swap_chain;
                self.swap_chain_images = images;
                if self.swap_chain_images.len() == 0 {
                    self.phase = Phase::AwaitMainLoop;
                    Action::Wait { seconds: MAIN_LOOP_SECONDS }
                } else {
                    self.phase = Phase::AwaitImageView;
                    Action::CreateImageView(
                        image_view_create_info(self.swap_chain_images[0], self.swap_chain_image_format),
                    )
                }
            },
            Event::SwapChainFailed => self.fail(EngineError::SwapChainCreationFailed, false),
            Event::ImageViewCreated(v) => {
                self.swap_chain_image_views.push(v);
                let done = self.swap_chain_image_views.len();
                if done < self.swap_chain_images.len() {
                    self.phase = Phase::AwaitImageView;
                    Action::CreateImageView(
                        image_view_create_info(self.swap_chain_images[done], self.swap_chain_image_format),
                    )
                } else {
                    self.phase = Phase::AwaitMainLoop;
                    Action::Wait { seconds: MAIN_LOOP_SECONDS }
                }
            },
            Event::ImageViewFailed => self.fail(EngineError::ImageViewCreationFailed, false),
            Event::Waited => {
                self.phase = Phase::AwaitCleanUp;
                let plan = self.release_plan();
                Action::CleanUp(plan)
            },
            Event::CleanedUp => {
                self.phase = Phase::Done;
                Action::Finish
            },
        }
    }

    /// The steps that release everything created, in order.
    fn release_plan(&self) -> (r: Vec<Release>)
        ensures
            r@ == release_order(*self),
    {
        let mut plan: Vec<Release> = Vec::new();
        match self.profile {
            Profile::Full => {
                let mut i: usize = 0;
                while i < self.swap_chain_image_views.len()
                    invariant
                        i <= self.swap_chain_image_views@.len(),
                        plan@ == self.swap_chain_image_views@.take(i as int).map_values(
                            |v: u64| Release::ImageView(v),
                        ),
                    decreases self.swap_chain_image_views.len() - i,
                {
                    plan.push(Release::ImageView(self.swap_chain_image_views[i]));
                    assert(self.swap_chain_image_views@.take(i + 1).map_values(|v: u64| Release::ImageView(v))
                        =~= self.swap_chain_image_views@.take(i as int).map_values(
                        |v: u64| Release::ImageView(v),
                    ).push(Release::ImageView(self.swap_chain_image_views@[i as int])));
                    i = i + 1;
                }
                assert(self.swap_chain_image_views@.take(i as int) =~= self.swap_chain_image_views@);
                plan.push(Release::SwapChain(self.swap_chain));
                plan.push(Release::Device(self.device));
                if enable_validation_layers {
                    plan.push(Release::DebugMessenger(self.debug_messenger));
                }
                plan.push(Release::Surface(self.surface));
                plan.push(Release::Instance(self.instance));
                plan.push(Release::Window(self.window));
                plan.push(Release::QuitSdl);
            },
            Profile::Minimal => {
                plan.push(Release::Instance(self.instance));
                plan.push(Release::Window(self.window));
                plan.push(Release::QuitSdl);
            },
        }
        assert(plan@ =~= release_order(*self));
        plan
    }

    /// The step after the debug messenger: the surface in the full
    /// bring-up, the main loop in the minimal one.
    fn after_debug_messenger(&mut self) -> (a: Action)
        requires
            old(self).wf(),
            old(self).phase is AwaitDebugMessenger || old(self).phase is AwaitInstance,
        ensures
            final(self).wf(),
            after_debug_messenger_spec(*old(self), *final(self), a),
    {
        match self.profile {
            Profile::Full => {
                self.phase = Phase::AwaitSurface;
                Action::CreateSurface
            },
            Profile::Minimal => {
                self.phase = Phase::AwaitMainLoop;
                Action::Wait { seconds: MAIN_LOOP_SECONDS }
            },
        }
    }

    /// Picks the physical device and asks for its logical device.
    fn choose_device(&mut self, devices: Vec<DeviceEntry>) -> (a: Action)
        requires
            old(self).wf(),
            old(self).phase == Phase::AwaitDevices,
            family_counts_fit(devices@),
        ensures
            final(self).wf(),
            step_ok(*old(self), Event::DevicesEnumerated(devices), *final(self), a),
    {
        match pick_physical_device(&devices) {
            Err(e) => self.fail(e, false),
            Ok(i) => {
                let ghost listed = devices@;
                let mut devices = devices;
                let entry = devices.remove(i);
                assert(entry == listed[i as int]);
                let indices = find_queue_families(&entry.info.queue_families);
                let info = device_create_info(&indices);
                let graphics_family = indices.graphics_family.unwrap();
                let present_family = indices.preset_family.unwrap();
                self.physical_device = entry.handle;
                self.chosen = Some(entry.info);
                self.phase = Phase::AwaitDevice;
                let a = Action::CreateDevice {
                    physical_device: entry.handle,
                    info,
                    graphics_family,
                    present_family,
                };
                assert(first_suitable(listed, i as int));
                a
            },
        }
    }
}

/// How SDL is started and the window opened: video, timer and game
/// controllers; an 800x600 resizable, high-DPI Vulkan window at (400, 50).
pub open spec fn window_config_spec(c: WindowConfig) -> bool {
    &&& c.init_flags == SDL_INIT_VIDEO | SDL_INIT_TIMER | SDL_INIT_GAMECONTROLLER
    &&& c.title@ == "SDL Vulkan App"@
    &&& c.x == WINDOW_X && c.y == WINDOW_Y
    &&& c.width == Width && c.height == Height
    &&& c.window_flags == SDL_WINDOW_VULKAN | SDL_WINDOW_RESIZABLE | SDL_WINDOW_ALLOW_HIGHDPI
}

/// After the debug messenger: the surface in the full bring-up, the main
/// loop in the minimal one.
pub open spec fn after_debug_messenger_spec(pre: app, post: app, a: Action) -> bool {
    match pre.profile {
        Profile::Full => post == (app { phase: Phase::AwaitSurface, ..pre }) && a is CreateSurface,
        Profile::Minimal => post == (app { phase: Phase::AwaitMainLoop, ..pre }) && a == Action::Wait {
            seconds: MAIN_LOOP_SECONDS,
        },
    }
}

/// `post` is `pre` moved to `phase`, failed with `error`.
pub open spec fn failed_with(pre: app, post: app, a: Action, error: EngineError, quit_sdl: bool) -> bool {
    &&& post == (app { phase: Phase::Failed, ..pre })
    &&& a == (Action::Fail { error, quit_sdl })
}

/// The release of everything that the state records as created, children
/// before their parents: the image views, the swap chain, the logical
/// device, the debug messenger (when validation is on), the surface, the
/// instance, the window, and SDL last. The minimal bring-up releases its
/// instance, its window and SDL.
pub open spec fn release_order(pre: app) -> Seq<Release> {
    match pre.profile {
        Profile::Full => pre.swap_chain_image_views@.map_values(|v: u64| Release::ImageView(v)) + seq![
            Release::SwapChain(pre.swap_chain),
            Release::Device(pre.device),
        ] + (if enable_validation_layers {
            seq![Release::DebugMessenger(pre.debug_messenger)]
        } else {
            seq![]
        }) + seq![
            Release::Surface(pre.surface),
            Release::Instance(pre.instance),
            Release::Window(pre.window),
            Release::QuitSdl,
        ],
        Profile::Minimal => seq![Release::Instance(pre.instance), Release::Window(pre.window), Release::QuitSdl],
    }
}

/// The release plan is exactly the release order.
pub open spec fn clean_up_spec(pre: app, plan: Vec<Release>) -> bool {
    plan@ == release_order(pre)
}

/// One step of the bring-up: from `pre`, the outcome `e` leads to `post`
/// and to the next step `a`.
pub open spec fn step_ok(pre: app, e: Event, post: app, a: Action) -> bool {
    match e {
        Event::Start => post == (app { phase: Phase::AwaitWindow, ..pre }) && (a matches Action::InitWindow(c)
            && window_config_spec(c)),
        Event::SdlInitFailed => failed_with(pre, post, a, EngineError::SdlInitFailed, false),
        Event::WindowCreated(w) => if w == 0 {
            failed_with(pre, post, a, EngineError::WindowCreationFailed, true)
        } else if enable_validation_layers {
            post == (app { phase: Phase::AwaitLayers, window: w, ..pre }) && a is QueryLayers
        } else {
            post == (app { phase: Phase::AwaitInstance, window: w, ..pre }) && (a matches Action::CreateInstance(
                info,
            ) && instance_info_spec(pre.profile, info))
        },
        Event::LayersQueried(names) => if enable_validation_layers && !layers_supported(names@) {
            failed_with(pre, post, a, EngineError::ValidationLayersUnavailable, false)
        } else {
            post == (app { phase: Phase::AwaitInstance, ..pre }) && (a matches Action::CreateInstance(info)
                && instance_info_spec(pre.profile, info))
        },
        Event::InstanceCreated(h) => if enable_validation_layers {
            post == (app { phase: Phase::AwaitDebugMessenger, instance: h, ..pre }) && a == Action::CreateDebugMessenger(
                DebugMessengerCreateInfo { message_severity: 0x1101, message_type: 0x7 },
            )
        } else {
            after_debug_messenger_spec(app { instance: h, ..pre }, post, a)
        },
        Event::InstanceFailed => failed_with(pre, post, a, EngineError::InstanceCreationFailed, false),
        Event::DebugMessengerCreated(h) => after_debug_messenger_spec(app { debug_messenger: h, ..pre }, post, a),
        Event::DebugMessengerMissing => failed_with(pre, post, a, EngineError::DebugMessengerNotFound, false),
        Event::SurfaceCreated(h) => if h == 0 {
            failed_with(pre, post, a, EngineError::SurfaceMissing, false)
        } else {
            post == (app { phase: Phase::AwaitDevices, surface: h, ..pre }) && a is EnumerateDevices
        },
        Event::SurfaceFailed => failed_with(pre, post, a, EngineError::SurfaceCreationFailed, false),
        Event::DevicesEnumerated(devices) => if devices@.len() == 0 {
            failed_with(pre, post, a, EngineError::NoVulkanGpu, false)
        } else if exists|i: int| first_suitable(devices@, i) {
            exists|i: int|
                #![trigger devices@[i]]
                first_suitable(devices@, i) && {
                    let d = devices@[i];
                    let fams = families_found(d.info.queue_families@);
                    &&& post == (app {
                        phase: Phase::AwaitDevice,
                        physical_device: d.handle,
                        chosen: Some(d.info),
                        ..pre
                    })
                    &&& a matches Action::CreateDevice {
                        physical_device,
                        info,
                        graphics_family,
                        present_family,
                    } && physical_device == d.handle && device_info_spec(fams, info) && graphics_family
                        == fams.graphics_family->0 && present_family == fams.preset_family->0
                }
        } else {
            failed_with(pre, post, a, EngineError::NoSuitableGpu, false)
        },
        Event::DeviceCreated { device, graphics_queue, present_queue } => post == (app {
            phase: Phase::AwaitDeviceRead,
            device,
            graphics_queue,
            preset_queue: present_queue,
            ..pre
        }) && a == Action::ReadDevice { physical_device: pre.physical_device },
        Event::DeviceRead(read) => {
            let stored = app { device_read: Some(read), ..pre };
            if needs_drawable_size(read.swap_chain_support.capabilities) {
                post == (app { phase: Phase::AwaitDrawableSize, ..stored }) && a is QueryDrawableSize
            } else {
                a matches Action::CreateSwapChain(info) && swap_chain_info_spec(read, 0, 0, info)
                    && post == (app {
                    phase: Phase::AwaitSwapChain,
                    swap_chain_image_format: info.image_format,
                    swap_chain_extent: info.image_extent,
                    ..stored
                })
            }
        },
        Event::DeviceFailed => failed_with(pre, post, a, EngineError::LogicalDeviceCreationFailed, false),
        Event::DrawableSize(w, h) => a matches Action::CreateSwapChain(info) && swap_chain_info_spec(
            pre.device_read->0,
            w,
            h,
            info,
        ) && post == (app {
            phase: Phase::AwaitSwapChain,
            swap_chain_image_format: info.image_format,
            swap_chain_extent: info.image_extent,
            ..pre
        }),
        Event::SwapChainCreated { swap_chain, images } => if images@.len() == 0 {
            post == (app {
                phase: Phase::AwaitMainLoop,
                swap_chain,
                swap_chain_images: images,
                ..pre
            }) && a == Action::Wait { seconds: MAIN_LOOP_SECONDS }
        } else {
            post == (app { phase: Phase::AwaitImageView, swap_chain, swap_chain_images: images, ..pre })
                && a == Action::CreateImageView(
                image_view_create_info_spec(images@[0], pre.swap_chain_image_format),
            )
        },
        Event::SwapChainFailed => failed_with(pre, post, a, EngineError::SwapChainCreationFailed, false),
        Event::ImageViewCreated(v) => {
            let views = pre.swap_chain_image_views@.push(v);
            &&& post.swap_chain_image_views@ == views
            &&& post == (app {
                phase: post.phase,
                swap_chain_image_views: post.swap_chain_image_views,
                ..pre
            })
            &&& if views.len() < pre.swap_chain_images@.len() {
                post.phase == Phase::AwaitImageView && a == Action::CreateImageView(
                    image_view_create_info_spec(
                        pre.swap_chain_images@[views.len() as int],
                        pre.swap_chain_image_format,
                    ),
                )
            } else {
                post.phase == Phase::AwaitMainLoop && a == Action::Wait { seconds: MAIN_LOOP_SECONDS }
            }
        },
        Event::ImageViewFailed => failed_with(pre, post, a, EngineError::ImageViewCreationFailed, false),
        Event::Waited => post == (app { phase: Phase::AwaitCleanUp, ..pre }) && (a matches Action::CleanUp(plan)
            && clean_up_spec(pre, plan)),
        Event::CleanedUp => post == (app { phase: Phase::Done, ..pre }) && a is Finish,
    }
}

/// A failed step ends the bring-up: the engine then waits for nothing more.
pub proof fn law_failure_is_final(pre: app, e: Event, post: app, a: Action)
    requires
        accepts(pre.phase, e),
        step_ok(pre, e, post, a),
        a is Fail,
    ensures
        post.phase == Phase::Failed,
        forall|later: Event| !accepts(post.phase, later),
{
}

/// The bring-up only finishes by releasing what it created: the finish
/// comes right after the clean-up, and the clean-up right after the main loop.
pub proof fn law_finish_follows_clean_up(pre: app, e: Event, post: app, a: Action)
    requires
        accepts(pre.phase, e),
        step_ok(pre, e, post, a),
    ensures
        a is Finish ==> pre.phase == Phase::AwaitCleanUp && post.phase == Phase::Done,
        a is CleanUp ==> pre.phase == Phase::AwaitMainLoop,
{
}

/// The clean-up shuts SDL down last, and releases the instance only after
/// everything made from it: each image view, the swap chain, the device and
/// the surface come before it, and the window comes after it.
pub proof fn law_release_children_first(pre: app)
    ensures
        release_order(pre).len() >= 3,
        release_order(pre).last() == Release::QuitSdl,
        release_order(pre)[release_order(pre).len() - 2] == Release::Window(pre.window),
        release_order(pre)[release_order(pre).len() - 3] == Release::Instance(pre.instance),
        forall|i: int|
            0 <= i < release_order(pre).len() - 3 ==> !(#[trigger] release_order(pre)[i] is Instance)
                && !(release_order(pre)[i] is Window) && !(release_order(pre)[i] is QuitSdl),
{
    let r = release_order(pre);
    if pre.profile == Profile::Full {
        let views = pre.swap_chain_image_views@.map_values(|v: u64| Release::ImageView(v));
        let mid = seq![Release::SwapChain(pre.swap_chain), Release::Device(pre.device)] + (
        if enable_validation_layers {
            seq![Release::DebugMessenger(pre.debug_messenger)]
        } else {
            seq![]
        }) + seq![Release::Surface(pre.surface)];
        let tail = seq![Release::Instance(pre.instance), Release::Window(pre.window), Release::QuitSdl];
        assert(r =~= views + mid + tail);
        assert forall|i: int| 0 <= i < r.len() - 3 implies !(#[trigger] r[i] is Instance) && !(
        r[i] is Window) && !(r[i] is QuitSdl) by {
            if i < views.len() {
                assert(r[i] == views[i]);
            } else {
                assert(r[i] == mid[i - views.len()]);
            }
        }
    }
}

/// In the full bring-up the clean-up releases every image view that was
/// created, once each and in the order they were created, before anything
/// else; then the swap chain, the device, the debug messenger (when
/// validation is on), the surface, the instance, the window, and SDL.
pub proof fn law_every_view_released_once(pre: app)
    requires
        pre.profile == Profile::Full,
    ensures
        ({
            let r = release_order(pre);
            let views = pre.swap_chain_image_views@;
            let n = views.len() as int;
            let m = if enable_validation_layers {
                1int
            } else {
                0int
            };
            &&& r.len() == n + 6 + m
            &&& forall|i: int| 0 <= i < n ==> #[trigger] r[i] == Release::ImageView(views[i])
            &&& forall|i: int| n <= i < r.len() ==> !(#[trigger] r[i] is ImageView)
            &&& r[n] == Release::SwapChain(pre.swap_chain)
            &&& r[n + 1] == Release::Device(pre.device)
            &&& enable_validation_layers ==> r[n + 2] == Release::DebugMessenger(pre.debug_messenger)
            &&& r[n + 2 + m] == Release::Surface(pre.surface)
            &&& r[n + 3 + m] == Release::Instance(pre.instance)
            &&& r[n + 4 + m] == Release::Window(pre.window)
            &&& r[n + 5 + m] == Release::QuitSdl
        }),
{
    let r = release_order(pre);
    let views = pre.swap_chain_image_views@;
    let n = views.len() as int;
    let released = views.map_values(|v: u64| Release::ImageView(v));
    let rest = seq![Release::SwapChain(pre.swap_chain), Release::Device(pre.device)] + (
    if enable_validation_layers {
        seq![Release::DebugMessenger(pre.debug_messenger)]
    } else {
        seq![]
    }) + seq![
        Release::Surface(pre.surface),
        Release::Instance(pre.instance),
        Release::Window(pre.window),
        Release::QuitSdl,
    ];
    assert(r =~= released + rest);
    assert forall|i: int| 0 <= i < n implies #[trigger] r[i] == Release::ImageView(views[i]) by {
        assert(r[i] == released[i]);
    }
    assert forall|i: int| n <= i < r.len() implies !(#[trigger] r[i] is ImageView) by {
        assert(r[i] == rest[i - n]);
    }
    assert(r[n] == rest[0]);
    assert(r[n + 1] == rest[1]);
}

} // verus!

use vstd::prelude::*;

verus! {

/// A pixel format together with its colour space.
#[derive(Debug, Clone, Copy, PartialEq, Eq, Structural)]
pub struct SurfaceFormat {
    pub format: i32,
    pub color_space: i32,
}

/// A width and a height in pixels.
#[derive(Debug, Clone, Copy, PartialEq, Eq, Structural)]
pub struct Extent2D {
    pub width: u32,
    pub height: u32,
}

/// What a surface allows of the swap chains built on it.
#[derive(Debug, Clone, Copy, PartialEq, Eq, Structural)]
pub struct SurfaceCapabilities {
    pub min_image_count: u32,
    /// 0 means no upper limit.
    pub max_image_count: u32,
    /// A width of `u32::MAX` means the surface takes the size of the swap chain.
    pub current_extent: Extent2D,
    pub min_image_extent: Extent2D,
    pub max_image_extent: Extent2D,
    pub current_transform: u32,
}

/// The formats, present modes and limits that a device offers for a surface.
pub struct swap_chain_support_details {
    pub capabilities: SurfaceCapabilities,
    pub formats: Vec<SurfaceFormat>,
    pub present_modes: Vec<i32>,
}

/// One queue family of a physical device.
#[derive(Debug, Clone, Copy, PartialEq, Eq, Structural)]
pub struct QueueFamily {
    pub queue_flags: u32,
    /// Whether queues of this family can present to the engine's surface.
    pub present_support: bool,
}

/// What the engine reads of a physical device to decide whether to use it.
pub struct PhysicalDeviceInfo {
    pub queue_families: Vec<QueueFamily>,
    pub extensions: Vec<String>,
    pub swap_chain_support: swap_chain_support_details,
}

/// A physical device: its handle and what the engine reads of it.
pub struct DeviceEntry {
    pub handle: u64,
    pub info: PhysicalDeviceInfo,
}

/// What is read of the chosen device again just before its swap chain is
/// made: its queue families and its surface support.
pub struct DeviceRead {
    pub queue_families: Vec<QueueFamily>,
    pub swap_chain_support: swap_chain_support_details,
}

} // verus!

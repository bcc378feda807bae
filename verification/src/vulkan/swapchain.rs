use vstd::prelude::*;

use crate::math::clamp;
use crate::math::lemma_clamp_u32;
use crate::vulkan::device::families_found;
use crate::vulkan::device::find_queue_families;
use crate::vulkan::types::Extent2D;
use crate::vulkan::types::DeviceRead;
use crate::vulkan::types::SurfaceCapabilities;
use crate::vulkan::types::SurfaceFormat;

verus! {

pub const VK_FORMAT_B8G8R8A8_SRGB: i32 = 50;
pub const VK_COLOR_SPACE_SRGB_NONLINEAR_KHR: i32 = 0;
pub const VK_PRESENT_MODE_MAILBOX_KHR: i32 = 1;
pub const VK_PRESENT_MODE_FIFO_KHR: i32 = 2;
pub const VK_SHARING_MODE_EXCLUSIVE: i32 = 0;
pub const VK_SHARING_MODE_CONCURRENT: i32 = 1;
pub const VK_IMAGE_USAGE_COLOR_ATTACHMENT_BIT: u32 = 0x10;
pub const VK_COMPOSITE_ALPHA_OPAQUE_BIT_KHR: u32 = 0x1;
pub const VK_IMAGE_VIEW_TYPE_2D: i32 = 1;
pub const VK_COMPONENT_SWIZZLE_IDENTITY: i32 = 0;
pub const VK_IMAGE_ASPECT_COLOR_BIT: u32 = 0x1;

/// The format the engine prefers: 8-bit BGRA in sRGB, non-linear sRGB colours.
pub open spec fn preferred_format(f: SurfaceFormat) -> bool {
    f.format == VK_FORMAT_B8G8R8A8_SRGB && f.color_space == VK_COLOR_SPACE_SRGB_NONLINEAR_KHR
}

/// The first preferred format on offer, or the first format when none is preferred.
pub open spec fn format_chosen(formats: Seq<SurfaceFormat>, f: SurfaceFormat) -> bool {
    if exists|i: int| 0 <= i < formats.len() && preferred_format(#[trigger] formats[i]) {
        exists|i: int|
            0 <= i < formats.len() && formats[i] == f && preferred_format(f) && forall|j: int|
                0 <= j < i ==> !preferred_format(#[trigger] formats[j])
    } else {
        f == formats[0]
    }
}

/// Picks the first preferred format, or else the first one on offer.
pub fn choose_swap_surface_format(available_formats: &[SurfaceFormat]) -> (r: &SurfaceFormat)
    requires
        available_formats@.len() > 0,
    ensures
        format_chosen(available_formats@, *r),
{
    let mut i: usize = 0;
    while i < available_formats.len()
        invariant
            i <= available_formats@.len(),
            forall|j: int| 0 <= j < i ==> !preferred_format(#[trigger] available_formats@[j]),
        decreases available_formats.len() - i,
    {
        let f = &available_formats[i];
        if f.format == VK_FORMAT_B8G8R8A8_SRGB && f.color_space == VK_COLOR_SPACE_SRGB_NONLINEAR_KHR {
            return f;
        }
        i = i + 1;
    }
    &available_formats[0]
}

/// Mailbox when the surface offers it, first-in-first-out otherwise.
pub open spec fn present_mode_chosen(modes: Seq<i32>) -> i32 {
    if modes.contains(VK_PRESENT_MODE_MAILBOX_KHR) {
        VK_PRESENT_MODE_MAILBOX_KHR
    } else {
        VK_PRESENT_MODE_FIFO_KHR
    }
}

/// Picks mailbox presentation when it is offered, else FIFO, which every
/// surface supports.
pub fn choose_swap_present_mode(available_present_modes: &Vec<i32>) -> (r: i32)
    ensures
        r == present_mode_chosen(available_present_modes@),
{
    let mut i: usize = 0;
    while i < available_present_modes.len()
        invariant
            i <= available_present_modes@.len(),
            forall|j: int| 0 <= j < i ==> available_present_modes@[j] != VK_PRESENT_MODE_MAILBOX_KHR,
        decreases available_present_modes.len() - i,
    {
        if available_present_modes[i] == VK_PRESENT_MODE_MAILBOX_KHR {
            return VK_PRESENT_MODE_MAILBOX_KHR;
        }
        i = i + 1;
    }
    VK_PRESENT_MODE_FIFO_KHR
}

/// The surface fixes the extent unless its current width is `u32::MAX`.
pub open spec fn needs_drawable_size(capabilities: SurfaceCapabilities) -> bool {
    capabilities.current_extent.width == u32::MAX
}

/// The value clamped into `[min, max]`, the lower bound checked first.
pub open spec fn clamp_u32(value: u32, min: u32, max: u32) -> u32 {
    if value < min {
        min
    } else if value > max {
        max
    } else {
        value
    }
}

/// The extent of the swap chain: the surface's own, or else the window's
/// drawable size (as unsigned values) kept within the surface's limits.
pub open spec fn extent_chosen(capabilities: SurfaceCapabilities, drawable_width: i32, drawable_height: i32) -> Extent2D {
    if !needs_drawable_size(capabilities) {
        capabilities.current_extent
    } else {
        Extent2D {
            width: clamp_u32(
                drawable_width as u32,
                capabilities.min_image_extent.width,
                capabilities.max_image_extent.width,
            ),
            height: clamp_u32(
                drawable_height as u32,
                capabilities.min_image_extent.height,
                capabilities.max_image_extent.height,
            ),
        }
    }
}

/// Picks the extent of the swap chain; the drawable size is read only when
/// the surface leaves the extent open.
pub fn choose_swap_extent(capabilities: &SurfaceCapabilities, drawable_width: i32, drawable_height: i32) -> (r: Extent2D)
    ensures
        r == extent_chosen(*capabilities, drawable_width, drawable_height),
{
    if capabilities.current_extent.width != u32::MAX {
        capabilities.current_extent
    } else {
        let width = drawable_width as u32;
        let height = drawable_height as u32;
        let w = clamp(width, capabilities.min_image_extent.width, capabilities.max_image_extent.width);
        let h = clamp(height, capabilities.min_image_extent.height, capabilities.max_image_extent.height);
        proof {
            lemma_clamp_u32(width, capabilities.min_image_extent.width, capabilities.max_image_extent.width);
            lemma_clamp_u32(height, capabilities.min_image_extent.height, capabilities.max_image_extent.height);
        }
        Extent2D { width: w, height: h }
    }
}

/// How many images the swap chain asks for: one more than the surface's
/// maximum, cut back to that maximum when there is one; so the maximum
/// itself, or 1 when the surface sets no maximum.
pub open spec fn image_count_chosen(capabilities: SurfaceCapabilities) -> u32 {
    if capabilities.max_image_count > 0 {
        capabilities.max_image_count
    } else {
        1
    }
}

/// The number of swap-chain images to ask for.
pub fn swap_chain_image_count(capabilities: &SurfaceCapabilities) -> (r: u32)
    requires
        capabilities.max_image_count < u32::MAX,
    ensures
        r == image_count_chosen(*capabilities),
{
    let mut image_count = capabilities.max_image_count + 1;
    if capabilities.max_image_count > 0 && image_count > capabilities.max_image_count {
        image_count = capabilities.max_image_count;
    }
    image_count
}

/// Everything `vkCreateSwapchainKHR` is handed, besides the surface.
pub struct SwapChainCreateInfo {
    pub min_image_count: u32,
    pub image_format: i32,
    pub image_color_space: i32,
    pub image_extent: Extent2D,
    pub image_array_layers: u32,
    pub image_usage: u32,
    pub image_sharing_mode: i32,
    /// The families that share the images; empty for exclusive use.
    pub queue_family_indices: Vec<u32>,
    pub pre_transform: u32,
    pub composite_alpha: u32,
    pub present_mode: i32,
    pub clipped: bool,
}

/// A fresh read of the device from which a swap chain can be described: the
/// driver's family count fits 32 bits, a drawing and a presenting family are
/// found, a format is offered, and the image limit is below `u32::MAX` (one
/// more image than the limit is asked for before the limit is applied).
pub open spec fn swap_chain_read_fits(device: DeviceRead) -> bool {
    &&& device.queue_families@.len() <= u32::MAX
    &&& families_found(device.queue_families@).complete()
    &&& device.swap_chain_support.formats@.len() > 0
    &&& device.swap_chain_support.capabilities.max_image_count < u32::MAX
}

/// `r` describes the swap chain for `device`, given the window's drawable size.
pub open spec fn swap_chain_info_spec(
    device: DeviceRead,
    drawable_width: i32,
    drawable_height: i32,
    r: SwapChainCreateInfo,
) -> bool {
    let support = device.swap_chain_support;
    let caps = support.capabilities;
    let indices = families_found(device.queue_families@);
    let g = indices.graphics_family->0;
    let p = indices.preset_family->0;
    &&& format_chosen(
        support.formats@,
        SurfaceFormat { format: r.image_format, color_space: r.image_color_space },
    )
    &&& r.present_mode == present_mode_chosen(support.present_modes@)
    &&& r.image_extent == extent_chosen(caps, drawable_width, drawable_height)
    &&& r.min_image_count == image_count_chosen(caps)
    &&& r.image_array_layers == 1
    &&& r.image_usage == VK_IMAGE_USAGE_COLOR_ATTACHMENT_BIT
    &&& g != p ==> r.image_sharing_mode == VK_SHARING_MODE_CONCURRENT && r.queue_family_indices@ == seq![g, p]
    &&& g == p ==> r.image_sharing_mode == VK_SHARING_MODE_EXCLUSIVE && r.queue_family_indices@.len() == 0
    &&& r.pre_transform == caps.current_transform
    &&& r.composite_alpha == VK_COMPOSITE_ALPHA_OPAQUE_BIT_KHR
    &&& r.clipped
}

/// The swap chain for a freshly read device: chosen format, present mode,
/// extent and image count; images shared between the drawing and the
/// presenting family when those differ, owned by one family otherwise.
pub fn swap_chain_create_info(device: &DeviceRead, drawable_width: i32, drawable_height: i32) -> (r: SwapChainCreateInfo)
    requires
        swap_chain_read_fits(*device),
    ensures
        swap_chain_info_spec(*device, drawable_width, drawable_height, r),
{
    let support = &device.swap_chain_support;
    let surface_format = choose_swap_surface_format(support.formats.as_slice());
    let present_mode = choose_swap_present_mode(&support.present_modes);
    let extent = choose_swap_extent(&support.capabilities, drawable_width, drawable_height);
    let image_count = swap_chain_image_count(&support.capabilities);
    let indices = find_queue_families(&device.queue_families);
    let graphics = indices.graphics_family.unwrap();
    let present = indices.preset_family.unwrap();
    let (sharing_mode, families) = if graphics != present {
        (VK_SHARING_MODE_CONCURRENT, vec![graphics, present])
    } else {
        (VK_SHARING_MODE_EXCLUSIVE, Vec::new())
    };
    SwapChainCreateInfo {
        min_image_count: image_count,
        image_format: surface_format.format,
        image_color_space: surface_format.color_space,
        image_extent: extent,
        image_array_layers: 1,
        image_usage: VK_IMAGE_USAGE_COLOR_ATTACHMENT_BIT,
        image_sharing_mode: sharing_mode,
        queue_family_indices: families,
        pre_transform: support.capabilities.current_transform,
        composite_alpha: VK_COMPOSITE_ALPHA_OPAQUE_BIT_KHR,
        present_mode,
        clipped: true,
    }
}

/// Everything `vkCreateImageView` is handed for one swap-chain image.
#[derive(Debug, Clone, Copy, PartialEq, Eq, Structural)]
pub struct ImageViewCreateInfo {
    pub image: u64,
    pub view_type: i32,
    pub format: i32,
    pub swizzle_r: i32,
    pub swizzle_g: i32,
    pub swizzle_b: i32,
    pub swizzle_a: i32,
    pub aspect_mask: u32,
    pub base_mip_level: u32,
    pub level_count: u32,
    pub base_array_layer: u32,
    pub layer_count: u32,
}

/// A 2D colour view of the whole of one image, channels as they are.
pub open spec fn image_view_create_info_spec(image: u64, format: i32) -> ImageViewCreateInfo {
    ImageViewCreateInfo {
        image,
        view_type: VK_IMAGE_VIEW_TYPE_2D,
        format,
        swizzle_r: VK_COMPONENT_SWIZZLE_IDENTITY,
        swizzle_g: VK_COMPONENT_SWIZZLE_IDENTITY,
        swizzle_b: VK_COMPONENT_SWIZZLE_IDENTITY,
        swizzle_a: VK_COMPONENT_SWIZZLE_IDENTITY,
        aspect_mask: VK_IMAGE_ASPECT_COLOR_BIT,
        base_mip_level: 0,
        level_count: 1,
        base_array_layer: 0,
        layer_count: 1,
    }
}

/// The view description for one swap-chain image.
pub fn image_view_create_info(image: u64, format: i32) -> (r: ImageViewCreateInfo)
    ensures
        r == image_view_create_info_spec(image, format),
{
    ImageViewCreateInfo {
        image,
        view_type: VK_IMAGE_VIEW_TYPE_2D,
        format,
        swizzle_r: VK_COMPONENT_SWIZZLE_IDENTITY,
        swizzle_g: VK_COMPONENT_SWIZZLE_IDENTITY,
        swizzle_b: VK_COMPONENT_SWIZZLE_IDENTITY,
        swizzle_a: VK_COMPONENT_SWIZZLE_IDENTITY,
        aspect_mask: VK_IMAGE_ASPECT_COLOR_BIT,
        base_mip_level: 0,
        level_count: 1,
        base_array_layer: 0,
        layer_count: 1,
    }
}

/// The chosen format is one that the surface offers.
pub proof fn law_chosen_format_offered(formats: Seq<SurfaceFormat>, f: SurfaceFormat)
    requires
        formats.len() > 0,
        format_chosen(formats, f),
    ensures
        formats.contains(f),
{
    if exists|i: int| 0 <= i < formats.len() && preferred_format(#[trigger] formats[i]) {
        let i = choose|i: int|
            0 <= i < formats.len() && formats[i] == f && preferred_format(f) && forall|j: int|
                0 <= j < i ==> !preferred_format(#[trigger] formats[j]);
        assert(formats[i] == f);
    } else {
        assert(formats[0] == f);
    }
}

/// Mailbox is chosen only when offered; otherwise FIFO, which every surface supports.
pub proof fn law_present_mode_supported(modes: Seq<i32>)
    ensures
        present_mode_chosen(modes) == VK_PRESENT_MODE_MAILBOX_KHR ==> modes.contains(
            VK_PRESENT_MODE_MAILBOX_KHR,
        ),
        present_mode_chosen(modes) == VK_PRESENT_MODE_MAILBOX_KHR || present_mode_chosen(modes)
            == VK_PRESENT_MODE_FIFO_KHR,
{
}

/// When the swap chain takes the window's size, that size is kept within
/// the surface's limits (when those limits are consistent).
pub proof fn law_extent_within_limits(caps: SurfaceCapabilities, drawable_width: i32, drawable_height: i32)
    requires
        needs_drawable_size(caps),
        caps.min_image_extent.width <= caps.max_image_extent.width,
        caps.min_image_extent.height <= caps.max_image_extent.height,
    ensures
        caps.min_image_extent.width <= extent_chosen(caps, drawable_width, drawable_height).width
            <= caps.max_image_extent.width,
        caps.min_image_extent.height <= extent_chosen(caps, drawable_width, drawable_height).height
            <= caps.max_image_extent.height,
{
}

/// The number of images asked for is at least one and never passes the
/// surface's limit.
pub proof fn law_image_count_within_limit(caps: SurfaceCapabilities)
    ensures
        image_count_chosen(caps) >= 1,
        caps.max_image_count > 0 ==> image_count_chosen(caps) <= caps.max_image_count,
{
}

} // verus!

use vstd::prelude::*;

use crate::error::EngineError;
use crate::vulkan::instance::enable_validation_layers;
use crate::vulkan::instance::validation_layer_names;
use crate::vulkan::instance::validation_layers;
use crate::vulkan::names::all_present;
use crate::vulkan::names::contains_all;
use crate::vulkan::names::name_seqs;
use crate::vulkan::types::DeviceEntry;
use crate::vulkan::types::PhysicalDeviceInfo;
use crate::vulkan::types::QueueFamily;

verus! {

/// `VK_QUEUE_GRAPHICS_BIT`.
pub const VK_QUEUE_GRAPHICS_BIT: u32 = 0x1;

/// The queue families chosen for drawing and for presenting.
#[derive(Debug, Clone, Copy, PartialEq, Eq, Structural)]
pub struct queue_family_indices {
    pub graphics_family: Option<u32>,
    pub preset_family: Option<u32>,
}

impl queue_family_indices {
    /// Both families have been found.
    pub open spec fn complete(self) -> bool {
        self.graphics_family is Some && self.preset_family is Some
    }

    /// No family chosen yet.
    pub fn new() -> (r: Self)
        ensures
            r.graphics_family is None,
            r.preset_family is None,
    {
        Self { graphics_family: None, preset_family: None }
    }

    /// Whether both families have been found.
    pub fn is_complete(&self) -> (r: bool)
        ensures
            r == self.complete(),
    {
        self.graphics_family.is_some() && self.preset_family.is_some()
    }
}

/// Family `i` supports graphics.
pub open spec fn has_graphics(fam: QueueFamily) -> bool {
    fam.queue_flags & VK_QUEUE_GRAPHICS_BIT != 0
}

/// The choice after looking at family `i`: a family that draws or presents
/// takes over that role.
pub open spec fn family_step(acc: queue_family_indices, fam: QueueFamily, i: int) -> queue_family_indices {
    queue_family_indices {
        graphics_family: if has_graphics(fam) {
            Some(i as u32)
        } else {
            acc.graphics_family
        },
        preset_family: if fam.present_support {
            Some(i as u32)
        } else {
            acc.preset_family
        },
    }
}

/// The choice after looking at the first `n` families, where the scan stops
/// as soon as both roles are filled.
pub open spec fn families_scanned(fams: Seq<QueueFamily>, n: nat) -> queue_family_indices
    decreases n,
{
    if n == 0 {
        queue_family_indices { graphics_family: None, preset_family: None }
    } else {
        let prev = families_scanned(fams, (n - 1) as nat);
        if prev.complete() {
            prev
        } else {
            family_step(prev, fams[n - 1], n - 1)
        }
    }
}

/// The choice over all the families of a device.
pub open spec fn families_found(fams: Seq<QueueFamily>) -> queue_family_indices {
    families_scanned(fams, fams.len())
}

/// Once both roles are filled the scan changes nothing more.
pub proof fn lemma_scan_stops(fams: Seq<QueueFamily>, n: nat, m: nat)
    requires
        n <= m,
        families_scanned(fams, n).complete(),
    ensures
        families_scanned(fams, m) == families_scanned(fams, n),
    decreases m - n,
{
    if m > n {
        lemma_scan_stops(fams, n, (m - 1) as nat);
    }
}

/// Walks the queue families in order: the graphics role goes to the latest
/// family with the graphics bit, the present role to the latest family that
/// can present, and the walk stops once both are filled.
pub fn find_queue_families(queue_families: &Vec<QueueFamily>) -> (r: queue_family_indices)
    requires
        queue_families.len() <= u32::MAX,
    ensures
        r == families_found(queue_families@),
{
    let mut indices = queue_family_indices::new();
    let mut i: usize = 0;
    while i < queue_families.len() && !indices.is_complete()
        invariant
            i <= queue_families.len() <= u32::MAX,
            indices == families_scanned(queue_families@, i as nat),
        decreases queue_families.len() - i,
    {
        let family = queue_families[i];
        let idx: u32 = i as u32;
        if family.queue_flags & VK_QUEUE_GRAPHICS_BIT != 0 {
            indices.graphics_family = Some(idx);
        }
        if family.present_support {
            indices.preset_family = Some(idx);
        }
        i = i + 1;
    }
    proof {
        if i < queue_families.len() {
            lemma_scan_stops(queue_families@, i as nat, queue_families@.len());
        }
    }
    indices
}

/// The device extensions that the engine needs.
pub open spec fn device_extension_names() -> Seq<Seq<char>> {
    seq!["VK_KHR_swapchain"@]
}

/// The names of the device extensions.
pub fn device_extensions() -> (r: Vec<String>)
    ensures
        name_seqs(r@) == device_extension_names(),
{
    let r = vec!["VK_KHR_swapchain".to_owned()];
    assert(name_seqs(r@) =~= device_extension_names());
    r
}

/// Whether every needed device extension is offered.
pub fn check_device_extension_support(available_extensions: &Vec<String>) -> (r: bool)
    ensures
        r == all_present(available_extensions@, device_extension_names()),
{
    let wanted = device_extensions();
    contains_all(available_extensions, &wanted)
}

/// A device can serve the engine: it has a drawing and a presenting family,
/// it offers the needed extensions, and its surface support lists at least
/// one format and one present mode.
pub open spec fn device_suitable(device: PhysicalDeviceInfo) -> bool {
    &&& families_found(device.queue_families@).complete()
    &&& all_present(device.extensions@, device_extension_names())
    &&& device.swap_chain_support.formats@.len() > 0
    &&& device.swap_chain_support.present_modes@.len() > 0
}

/// The family counts of every device fit the driver's 32-bit counts.
pub open spec fn family_counts_fit(devices: Seq<DeviceEntry>) -> bool {
    forall|i: int| 0 <= i < devices.len() ==> #[trigger] devices[i].info.queue_families@.len() <= u32::MAX
}

/// Device `i` is the first suitable device of the list.
pub open spec fn first_suitable(devices: Seq<DeviceEntry>, i: int) -> bool {
    &&& 0 <= i < devices.len()
    &&& device_suitable(devices[i].info)
    &&& forall|j: int| 0 <= j < i ==> !device_suitable(#[trigger] devices[j].info)
}

/// Whether the engine can use this device.
pub fn is_device_suitable(device: &PhysicalDeviceInfo) -> (r: bool)
    requires
        device.queue_families@.len() <= u32::MAX,
    ensures
        r == device_suitable(*device),
{
    let indices = find_queue_families(&device.queue_families);
    let extensions_supported = check_device_extension_support(&device.extensions);
    let mut swap_chain_adequate = false;
    if extensions_supported {
        let support = &device.swap_chain_support;
        swap_chain_adequate = !support.formats.is_empty() && !support.present_modes.is_empty();
    }
    indices.is_complete() && extensions_supported && swap_chain_adequate
}

/// The first suitable device; fails when there is no device at all, or
/// when none is suitable.
pub fn pick_physical_device(devices: &Vec<DeviceEntry>) -> (r: Result<usize, EngineError>)
    requires
        family_counts_fit(devices@),
    ensures
        match r {
            Ok(i) => first_suitable(devices@, i as int),
            Err(e) => {
                &&& devices@.len() == 0 ==> e == EngineError::NoVulkanGpu
                &&& devices@.len() > 0 ==> e == EngineError::NoSuitableGpu
                &&& forall|j: int| 0 <= j < devices@.len() ==> !device_suitable(#[trigger] devices@[j].info)
            },
        },
{
    if devices.len() == 0 {
        return Err(EngineError::NoVulkanGpu);
    }
    let mut i: usize = 0;
    while i < devices.len()
        invariant
            i <= devices.len(),
            family_counts_fit(devices@),
            forall|j: int| 0 <= j < i ==> !device_suitable(#[trigger] devices@[j].info),
        decreases devices.len() - i,
    {
        assert(devices@[i as int].info.queue_families@.len() <= u32::MAX);
        if is_device_suitable(&devices[i].info) {
            return Ok(i);
        }
        i = i + 1;
    }
    Err(EngineError::NoSuitableGpu)
}

/// The distinct families named by a complete choice, drawing family first.
pub open spec fn unique_families(indices: queue_family_indices) -> Seq<u32> {
    let g = indices.graphics_family->0;
    let p = indices.preset_family->0;
    if g == p {
        seq![g]
    } else {
        seq![g, p]
    }
}

/// What `vkCreateDevice` is handed: one queue of each distinct family, the
/// swap-chain extension, and the validation layers when they are on.
pub struct DeviceCreateInfo {
    pub queue_families: Vec<u32>,
    pub queue_count: u32,
    pub enabled_extensions: Vec<String>,
    pub enabled_layers: Vec<String>,
}

/// `info` describes the logical device for the family choice `indices`.
pub open spec fn device_info_spec(indices: queue_family_indices, info: DeviceCreateInfo) -> bool {
    &&& info.queue_families@ == unique_families(indices)
    &&& info.queue_count == 1
    &&& name_seqs(info.enabled_extensions@) == device_extension_names()
    &&& enable_validation_layers ==> name_seqs(info.enabled_layers@) == validation_layer_names()
    &&& !enable_validation_layers ==> info.enabled_layers@.len() == 0
}

/// The logical-device description for a complete family choice.
pub fn device_create_info(indices: &queue_family_indices) -> (r: DeviceCreateInfo)
    requires
        indices.complete(),
    ensures
        device_info_spec(*indices, r),
{
    let graphics = indices.graphics_family.unwrap();
    let present = indices.preset_family.unwrap();
    let mut queue_families: Vec<u32> = Vec::new();
    queue_families.push(graphics);
    if present != graphics {
        queue_families.push(present);
    }
    assert(queue_families@ =~= unique_families(*indices));
    let enabled_layers = if enable_validation_layers {
        validation_layers()
    } else {
        Vec::new()
    };
    DeviceCreateInfo {
        queue_families,
        queue_count: 1,
        enabled_extensions: device_extensions(),
        enabled_layers,
    }
}

/// The chosen families exist and can do what they were chosen for.
pub proof fn law_found_families_qualify(fams: Seq<QueueFamily>)
    requires
        fams.len() <= u32::MAX,
    ensures
        families_found(fams).graphics_family matches Some(g) ==> g < fams.len() && has_graphics(
            fams[g as int],
        ),
        families_found(fams).preset_family matches Some(p) ==> p < fams.len()
            && fams[p as int].present_support,
{
    lemma_scan_qualifies(fams, fams.len());
}

proof fn lemma_scan_qualifies(fams: Seq<QueueFamily>, n: nat)
    requires
        n <= fams.len() <= u32::MAX,
    ensures
        families_scanned(fams, n).graphics_family matches Some(g) ==> g < n && has_graphics(
            fams[g as int],
        ),
        families_scanned(fams, n).preset_family matches Some(p) ==> p < n
            && fams[p as int].present_support,
    decreases n,
{
    if n > 0 {
        lemma_scan_qualifies(fams, (n - 1) as nat);
    }
}

/// When some family can draw and some family can present, the scan finds
/// a drawing and a presenting family.
pub proof fn law_families_found_when_offered(fams: Seq<QueueFamily>)
    requires
        fams.len() <= u32::MAX,
        exists|i: int| 0 <= i < fams.len() && has_graphics(#[trigger] fams[i]),
        exists|j: int| 0 <= j < fams.len() && (#[trigger] fams[j]).present_support,
    ensures
        families_found(fams).complete(),
{
    lemma_scan_finds(fams, fams.len());
}

proof fn lemma_scan_finds(fams: Seq<QueueFamily>, n: nat)
    requires
        n <= fams.len(),
    ensures
        (exists|i: int| 0 <= i < n && has_graphics(#[trigger] fams[i])) ==> families_scanned(
            fams,
            n,
        ).graphics_family is Some,
        (exists|j: int| 0 <= j < n && (#[trigger] fams[j]).present_support) ==> families_scanned(
            fams,
            n,
        ).preset_family is Some,
    decreases n,
{
    if n > 0 {
        lemma_scan_finds(fams, (n - 1) as nat);
        if exists|i: int| 0 <= i < n && has_graphics(#[trigger] fams[i]) {
            let i = choose|i: int| 0 <= i < n && has_graphics(#[trigger] fams[i]);
            if i < n - 1 {
                assert(0 <= i < n - 1 && has_graphics(fams[i]));
            }
        }
        if exists|j: int| 0 <= j < n && (#[trigger] fams[j]).present_support {
            let j = choose|j: int| 0 <= j < n && (#[trigger] fams[j]).present_support;
            if j < n - 1 {
                assert(0 <= j < n - 1 && fams[j].present_support);
            }
        }
    }
}

/// The logical device asks for each chosen family once, and for both.
pub proof fn law_unique_families_distinct(indices: queue_family_indices)
    requires
        indices.complete(),
    ensures
        unique_families(indices).no_duplicates(),
        unique_families(indices).contains(indices.graphics_family->0),
        unique_families(indices).contains(indices.preset_family->0),
{
    let u = unique_families(indices);
    if indices.graphics_family->0 == indices.preset_family->0 {
        assert(u[0] == indices.graphics_family->0);
    } else {
        assert(u[0] == indices.graphics_family->0);
        assert(u[1] == indices.preset_family->0);
    }
}

} // verus!

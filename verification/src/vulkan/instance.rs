use vstd::prelude::*;

use crate::error::EngineError;
use crate::text::push_char;
use crate::text::push_str;
use crate::text::push_string;
use crate::vulkan::names::all_present;
use crate::vulkan::names::contains_all;
use crate::vulkan::names::name_seqs;

verus! {

/// Whether the Khronos validation layer is switched on.
pub const enable_validation_layers: bool = true;

/// `VK_MAKE_VERSION(1, 0, 0)`.
pub const VK_VERSION_1_0_0: u32 = 4194304;

/// The value of the `VK_VERSION_1_0` feature macro, which the minimal
/// bring-up hands over as its versions.
pub const VK_VERSION_1_0: u32 = 1;

/// Which bring-up the engine runs: the minimal one stops after the debug
/// messenger; the full one goes on to the surface, the devices and the swap
/// chain.
#[derive(Debug, Clone, Copy, PartialEq, Eq, Structural)]
pub enum Profile {
    Minimal,
    Full,
}

pub const VK_FALSE: u32 = 0;
pub const VK_TRUE: u32 = 1;

pub const DEBUG_SEVERITY_VERBOSE: u32 = 0x1;
pub const DEBUG_SEVERITY_WARNING: u32 = 0x100;
pub const DEBUG_SEVERITY_ERROR: u32 = 0x1000;
pub const DEBUG_TYPE_GENERAL: u32 = 0x1;
pub const DEBUG_TYPE_VALIDATION: u32 = 0x2;
pub const DEBUG_TYPE_PERFORMANCE: u32 = 0x4;

/// The layers that the engine asks for.
pub open spec fn validation_layer_names() -> Seq<Seq<char>> {
    seq!["VK_LAYER_KHRONOS_validation"@]
}

/// The instance extensions that the engine asks for, in order.
pub open spec fn required_extension_names(profile: Profile) -> Seq<Seq<char>> {
    match profile {
        Profile::Minimal => seq!["VK_EXT_debug_utils"@],
        Profile::Full => full_extension_names(),
    }
}

/// The instance extensions of the full bring-up, in order.
pub open spec fn full_extension_names() -> Seq<Seq<char>> {
    seq![
        "VK_KHR_device_group_creation"@,
        "VK_KHR_get_physical_device_properties2"@,
        "VK_KHR_get_surface_capabilities2"@,
        "VK_KHR_surface"@,
        "VK_EXT_debug_report"@,
        "VK_EXT_debug_utils"@,
        "VK_KHR_external_fence_capabilities"@,
        "VK_KHR_external_memory_capabilities"@,
        "VK_KHR_external_semaphore_capabilities"@,
        "VK_EXT_surface_maintenance1"@,
        "VK_EXT_swapchain_colorspace"@,
        "VK_NV_external_memory_capabilities"@,
        "VK_KHR_portability_enumeration"@,
        "VK_LUNARG_direct_driver_loading"@,
        "VK_KHR_win32_surface"@,
    ]
}

/// Every validation layer occurs among `available`.
pub open spec fn layers_supported(available: Seq<String>) -> bool {
    all_present(available, validation_layer_names())
}

/// The names of the validation layers.
pub fn validation_layers() -> (r: Vec<String>)
    ensures
        name_seqs(r@) == validation_layer_names(),
{
    let r = vec!["VK_LAYER_KHRONOS_validation".to_owned()];
    assert(name_seqs(r@) =~= validation_layer_names());
    r
}

/// The instance extensions to enable.
pub fn get_required_extensions(profile: Profile) -> (r: Vec<String>)
    ensures
        name_seqs(r@) == required_extension_names(profile),
{
    match profile {
        Profile::Minimal => {
            let r = vec!["VK_EXT_debug_utils".to_owned()];
            assert(name_seqs(r@) =~= required_extension_names(profile));
            r
        },
        Profile::Full => {
            let r = vec![
                "VK_KHR_device_group_creation".to_owned(),
                "VK_KHR_get_physical_device_properties2".to_owned(),
                "VK_KHR_get_surface_capabilities2".to_owned(),
                "VK_KHR_surface".to_owned(),
                "VK_EXT_debug_report".to_owned(),
                "VK_EXT_debug_utils".to_owned(),
                "VK_KHR_external_fence_capabilities".to_owned(),
                "VK_KHR_external_memory_capabilities".to_owned(),
                "VK_KHR_external_semaphore_capabilities".to_owned(),
                "VK_EXT_surface_maintenance1".to_owned(),
                "VK_EXT_swapchain_colorspace".to_owned(),
                "VK_NV_external_memory_capabilities".to_owned(),
                "VK_KHR_portability_enumeration".to_owned(),
                "VK_LUNARG_direct_driver_loading".to_owned(),
                "VK_KHR_win32_surface".to_owned(),
            ];
            assert(name_seqs(r@) =~= required_extension_names(profile));
            r
        },
    }
}

/// Whether every validation layer occurs among the layers the loader offers.
pub fn check_validation_layer_support(available_layers: &Vec<String>) -> (r: bool)
    ensures
        r == layers_supported(available_layers@),
{
    let wanted = validation_layers();
    contains_all(available_layers, &wanted)
}

/// The severities and kinds of messages that the debug messenger reports.
#[derive(Debug, Clone, Copy, PartialEq, Eq, Structural)]
pub struct DebugMessengerCreateInfo {
    pub message_severity: u32,
    pub message_type: u32,
}

/// Verbose, warning and error messages of the general, validation and
/// performance kinds.
pub fn populate_debug_messenger_create_info() -> (r: DebugMessengerCreateInfo)
    ensures
        r.message_severity == 0x1101,
        r.message_type == 0x7,
{
    let severity = DEBUG_SEVERITY_VERBOSE | DEBUG_SEVERITY_WARNING | DEBUG_SEVERITY_ERROR;
    let kinds = DEBUG_TYPE_GENERAL | DEBUG_TYPE_VALIDATION | DEBUG_TYPE_PERFORMANCE;
    assert(0x1u32 | 0x100u32 | 0x1000u32 == 0x1101u32) by (bit_vector);
    assert(0x1u32 | 0x2u32 | 0x4u32 == 0x7u32) by (bit_vector);
    DebugMessengerCreateInfo { message_severity: severity, message_type: kinds }
}

/// What the application tells the driver about itself.
pub struct ApplicationInfo {
    pub application_name: String,
    pub application_version: u32,
    pub engine_name: String,
    pub engine_version: u32,
    pub api_version: u32,
}

/// Everything `vkCreateInstance` is handed.
pub struct InstanceCreateInfo {
    pub application: ApplicationInfo,
    pub enabled_extensions: Vec<String>,
    pub enabled_layers: Vec<String>,
    /// The messenger that reports on instance creation itself, when layers are on.
    pub debug_messenger: Option<DebugMessengerCreateInfo>,
}

/// `info` is the engine's instance description: its own name and version,
/// the required extensions, and the validation layers with a debug
/// messenger when those are on.
pub open spec fn instance_info_spec(profile: Profile, info: InstanceCreateInfo) -> bool {
    let version = match profile {
        Profile::Minimal => VK_VERSION_1_0,
        Profile::Full => VK_VERSION_1_0_0,
    };
    &&& info.application.application_name@ == "SDL Vulkan App"@
    &&& info.application.application_version == version
    &&& info.application.engine_name@ == "No Engine"@
    &&& info.application.engine_version == version
    &&& info.application.api_version == version
    &&& name_seqs(info.enabled_extensions@) == required_extension_names(profile)
    &&& enable_validation_layers ==> {
        &&& name_seqs(info.enabled_layers@) == validation_layer_names()
        &&& info.debug_messenger == Some(
            DebugMessengerCreateInfo { message_severity: 0x1101, message_type: 0x7 },
        )
    }
    &&& !enable_validation_layers ==> {
        &&& info.enabled_layers@.len() == 0
        &&& info.debug_messenger is None
    }
}

/// The instance description, or the failure when validation layers are
/// asked for but the loader does not offer them all.
pub fn instance_create_info(profile: Profile, available_layers: &Vec<String>) -> (r: Result<InstanceCreateInfo, EngineError>)
    ensures
        match r {
            Err(e) => {
                &&& e == EngineError::ValidationLayersUnavailable
                &&& enable_validation_layers
                &&& !layers_supported(available_layers@)
            },
            Ok(info) => {
                &&& !(enable_validation_layers && !layers_supported(available_layers@))
                &&& instance_info_spec(profile, info)
            },
        },
{
    if enable_validation_layers && !check_validation_layer_support(available_layers) {
        return Err(EngineError::ValidationLayersUnavailable);
    }
    let version = match profile {
        Profile::Minimal => VK_VERSION_1_0,
        Profile::Full => VK_VERSION_1_0_0,
    };
    let application = ApplicationInfo {
        application_name: "SDL Vulkan App".to_owned(),
        application_version: version,
        engine_name: "No Engine".to_owned(),
        engine_version: version,
        api_version: version,
    };
    let enabled_layers = if enable_validation_layers {
        validation_layers()
    } else {
        Vec::new()
    };
    let debug_messenger = if enable_validation_layers {
        Some(populate_debug_messenger_create_info())
    } else {
        None
    };
    Ok(InstanceCreateInfo {
        application,
        enabled_extensions: get_required_extensions(profile),
        enabled_layers,
        debug_messenger,
    })
}

/// What to do with a `VkResult`.
#[derive(Debug, Clone, Copy, PartialEq, Eq, Structural)]
pub enum ResultCheck {
    /// `VK_SUCCESS`: nothing.
    Success,
    /// A positive status: report it and go on.
    Report,
    /// An error code: report it and exit with `FATAL_EXIT_CODE`.
    Fatal,
}

/// The exit code of the program after a Vulkan error.
pub const FATAL_EXIT_CODE: i32 = 123;

/// Classifies a `VkResult`: 0 is success, negative codes are errors,
/// positive ones are statuses worth reporting.
pub fn check_vk_result(err: i32) -> (r: ResultCheck)
    ensures
        r == (if err == 0 {
            ResultCheck::Success
        } else if err < 0 {
            ResultCheck::Fatal
        } else {
            ResultCheck::Report
        }),
{
    if err == 0 {
        return ResultCheck::Success;
    }
    if err < 0 {
        ResultCheck::Fatal
    } else {
        ResultCheck::Report
    }
}

/// The line that the debug messenger prints for a message, which may be
/// missing; the prefix depends on the bring-up.
pub open spec fn debug_line(profile: Profile, message: Option<Seq<char>>) -> Seq<char> {
    let prefix = match profile {
        Profile::Minimal => "Debug callback: "@,
        Profile::Full => "***ValidationLayer: "@,
    };
    prefix + match message {
        Some(m) => m,
        None => "<null>"@,
    }
}

/// The debug messenger's callback: the line to print, and `VK_FALSE`, so
/// that the call that raised the message is not aborted.
pub fn debug_callback(profile: Profile, message: Option<String>) -> (r: (String, u32))
    ensures
        r.0@ == debug_line(
            profile,
            match message {
                Some(m) => Some(m@),
                None => None,
            },
        ),
        r.1 == VK_FALSE,
{
    let mut line = String::new();
    match profile {
        Profile::Minimal => push_str(&mut line, "Debug callback: "),
        Profile::Full => push_str(&mut line, "***ValidationLayer: "),
    }
    match &message {
        Some(m) => push_string(&mut line, m),
        None => push_str(&mut line, "<null>"),
    }
    (line, VK_FALSE)
}

/// The decimal text of `n`, with a leading `-` when negative.
pub open spec fn decimal_text(n: int) -> Seq<char>
    decreases (if n < 0 { -n + 1 } else { n }),
{
    if n < 0 {
        seq!['-'] + decimal_text(-n)
    } else if n < 10 {
        seq![digit_char(n)]
    } else {
        decimal_text(n / 10) + seq![digit_char(n % 10)]
    }
}

/// The character of a decimal digit.
pub open spec fn digit_char(d: int) -> char {
    (48 + d) as char
}

/// The decimal digits of `n`.
fn unsigned_text(n: u64) -> (r: String)
    ensures
        r@ == decimal_text(n as int),
    decreases n,
{
    let d: u64 = n % 10;
    let c: char = ((48 + d) as u8) as char;
    assert(c == digit_char(d as int));
    if n < 10 {
        let mut s = String::new();
        push_char(&mut s, c);
        s
    } else {
        let mut s = unsigned_text(n / 10);
        push_char(&mut s, c);
        s
    }
}

/// The decimal text of a `VkResult`.
pub fn vk_result_text(err: i32) -> (r: String)
    ensures
        r@ == decimal_text(err as int),
{
    if err < 0 {
        let magnitude: u64 = (0 - (err as i64)) as u64;
        let digits = unsigned_text(magnitude);
        let mut s = String::new();
        push_char(&mut s, '-');
        push_string(&mut s, &digits);
        s
    } else {
        unsigned_text(err as u64)
    }
}

/// The line reported for a `VkResult` other than success.
pub open spec fn vk_result_line(err: i32) -> Seq<char> {
    "Error: VkResult = "@ + decimal_text(err as int)
}

/// The report line for a `VkResult`.
pub fn vk_result_message(err: i32) -> (r: String)
    ensures
        r@ == vk_result_line(err),
{
    let mut s = String::new();
    push_str(&mut s, "Error: VkResult = ");
    let digits = vk_result_text(err);
    push_string(&mut s, &digits);
    s
}

/// Every bring-up asks for the debug-utils extension, which the debug
/// messenger is made with; the full bring-up also asks for the surface
/// extensions that the window surface is created with (`VK_KHR_surface` and
/// the platform's `VK_KHR_win32_surface`).
pub proof fn law_extensions_serve_the_bring_up(profile: Profile)
    ensures
        required_extension_names(profile).contains("VK_EXT_debug_utils"@),
        profile == Profile::Full ==> required_extension_names(profile).contains("VK_KHR_surface"@)
            && required_extension_names(profile).contains("VK_KHR_win32_surface"@),
{
    let r = required_extension_names(profile);
    match profile {
        Profile::Minimal => {
            assert(r[0] == "VK_EXT_debug_utils"@);
        },
        Profile::Full => {
            assert(r[5] == "VK_EXT_debug_utils"@);
            assert(r[3] == "VK_KHR_surface"@);
            assert(r[14] == "VK_KHR_win32_surface"@);
        },
    }
}

} // verus!

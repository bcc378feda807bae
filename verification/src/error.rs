use vstd::prelude::*;

verus! {

/// The ways in which bringing up the window and the Vulkan device can fail.
/// Each one ends the program.
#[derive(Debug, Clone, Copy, PartialEq, Eq, Structural)]
pub enum EngineError {
    SdlInitFailed,
    WindowCreationFailed,
    ValidationLayersUnavailable,
    InstanceCreationFailed,
    DebugMessengerNotFound,
    SurfaceCreationFailed,
    SurfaceMissing,
    NoVulkanGpu,
    NoSuitableGpu,
    LogicalDeviceCreationFailed,
    SwapChainCreationFailed,
    ImageViewCreationFailed,
}

/// The text that goes with each failure.
pub open spec fn error_text(e: EngineError) -> Seq<char> {
    match e {
        EngineError::SdlInitFailed => "SDL_Init failed"@,
        EngineError::WindowCreationFailed => "SDL_CreateWindow failed"@,
        EngineError::ValidationLayersUnavailable => "validation layers requested, but not available!"@,
        EngineError::InstanceCreationFailed => "vkCreateInstance failed"@,
        EngineError::DebugMessengerNotFound => "vkCreateDebugUtilsMessengerEXT not found"@,
        EngineError::SurfaceCreationFailed => "failed to create vulkan surface!"@,
        EngineError::SurfaceMissing => "failed to create vulkan surface 2!"@,
        EngineError::NoVulkanGpu => "failed to find gpus with vulkan support!"@,
        EngineError::NoSuitableGpu => "failed to find a suitable gpu!"@,
        EngineError::LogicalDeviceCreationFailed => "failed to create logical device!"@,
        EngineError::SwapChainCreationFailed => "failed to create swap chain!"@,
        EngineError::ImageViewCreationFailed => "failed to create image views!"@,
    }
}

impl EngineError {
    /// The message with which the program stops on this failure.
    pub fn message(&self) -> (r: String)
        ensures
            r@ == error_text(*self),
    {
        match self {
            EngineError::SdlInitFailed => "SDL_Init failed".to_owned(),
            EngineError::WindowCreationFailed => "SDL_CreateWindow failed".to_owned(),
            EngineError::ValidationLayersUnavailable => "validation layers requested, but not available!".to_owned(),
            EngineError::InstanceCreationFailed => "vkCreateInstance failed".to_owned(),
            EngineError::DebugMessengerNotFound => "vkCreateDebugUtilsMessengerEXT not found".to_owned(),
            EngineError::SurfaceCreationFailed => "failed to create vulkan surface!".to_owned(),
            EngineError::SurfaceMissing => "failed to create vulkan surface 2!".to_owned(),
            EngineError::NoVulkanGpu => "failed to find gpus with vulkan support!".to_owned(),
            EngineError::NoSuitableGpu => "failed to find a suitable gpu!".to_owned(),
            EngineError::LogicalDeviceCreationFailed => "failed to create logical device!".to_owned(),
            EngineError::SwapChainCreationFailed => "failed to create swap chain!".to_owned(),
            EngineError::ImageViewCreationFailed => "failed to create image views!".to_owned(),
        }
    }
}

} // verus!

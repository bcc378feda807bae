//! The decisions of a Vulkan bring-up sequence, over plain values that the
//! caller reads from the driver: which layers and extensions to ask for,
//! which physical device to use, and how to shape the swap chain.

pub mod names;
pub mod instance;
pub mod types;
pub mod device;
pub mod swapchain;

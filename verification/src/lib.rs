//! A small engine toolkit: generic 2D/3D vectors, a Wavefront OBJ reader,
//! the decision logic of a Vulkan bring-up sequence, and a builder generator.
#![allow(non_camel_case_types)]

pub mod builder;
pub mod engine;
pub mod error;
pub mod math;
pub mod memory;
pub mod obj;
pub mod text;
pub mod vulkan;

pub use math::clamp;
pub use math::vec2::vec2;
pub use math::vec3::vec3;

pub use memory::heap::deref;
pub use memory::heap::free;
pub use memory::heap::malloc;

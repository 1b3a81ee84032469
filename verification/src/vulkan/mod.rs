//! The Vulkan abstraction layer: errors, devices, swapchains, commands,
//! descriptors, pipelines and shaders.
use vstd::prelude::*;

pub mod error;
pub mod flags;
pub mod utils;
pub mod device;
pub mod swapchain;
pub mod command_buffer;
pub mod command_pool;
pub mod descriptors;
pub mod buffer;
pub mod debugger;
pub mod pipeline;
pub mod shader;

verus! {

} // verus!

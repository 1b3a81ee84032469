//! Magma: a small Vulkan game engine, with its decision logic verified.
//!
//! The modules hold the parts of the engine that decide, choose and keep
//! bookkeeping; the calls into the Vulkan driver, the window system and the
//! file system are made by the surrounding application around them.
use vstd::prelude::*;

pub mod app;
pub mod entities;
pub mod input;
pub mod render;
pub mod window;
pub mod vulkan;
pub mod layout_derive;

verus! {

} // verus!

//! Verified core of a real-time rendering engine: GPU frame lifecycle and
//! resource management.
//!
//! The library models the decision logic of a renderer built on an explicit
//! graphics API: memory-type selection, buffer allocation planning, pipeline
//! descriptor assembly, swapchain configuration with capability clamping,
//! per-frame synchronization across a fixed ring of frames in flight, and
//! dependency-ordered teardown.
//!
//! The GPU itself, the window system and the shader compiler are outside
//! collaborators. Every value they report (surface capabilities, memory
//! types, fence-wait outcomes, image-acquisition results) enters the library
//! as a plain argument, and every command the engine decides to issue leaves
//! it as a [`actions::GpuAction`] value; the surrounding application performs
//! those commands and feeds the outcomes back. The contracts therefore hold
//! for every behaviour the device may exhibit.

pub mod actions;
pub mod bindings;
pub mod buffer;
pub mod extent;
pub mod frame;
pub mod memory;
pub mod pipeline;
pub mod renderer;
pub mod state;
pub mod swapchain;

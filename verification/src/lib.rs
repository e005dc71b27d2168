//! Frame-lifecycle and resource-synchronization core of an explicit-API
//! (Vulkan-style) real-time renderer.
//!
//! The crate models the decisions the renderer makes each frame — fence and
//! image-in-flight bookkeeping, swapchain parameter selection and rebuild,
//! command recording counts, allocator memory-type selection, and the byte
//! layouts handed to the GPU — as verified functions over plain values.
//! The surrounding process performs the actual GPU calls and feeds their
//! outcomes back in as events.

pub mod device;
pub mod error;
pub mod layout;
pub mod memory;
pub mod orchestrator;
pub mod recorder;
pub mod swapchain;

//! Resource-lifetime, capability-negotiation and frame-synchronisation logic
//! for an explicit, handle-based graphics API.
//!
//! Every decision the renderer makes about hardware capabilities, swapchain
//! configuration, pipeline validation, buffer writes, teardown order and the
//! per-frame loop is computed here from plain values; the driver calls that act
//! on those decisions live in the application around this library.

pub mod allocator;
pub mod assets;
pub mod buffer;
pub mod device;
pub mod frame;
pub mod image;
pub mod instance;
pub mod lifetime;
pub mod mesh;
pub mod phys_device;
pub mod pipeline;
pub mod spirv;
pub mod surface;
pub mod swapchain;

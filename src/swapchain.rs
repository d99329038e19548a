use vstd::prelude::*;

use crate::phys_device::PhysicalDevice;
use crate::surface::{Extent2D, SurfaceCapabilities, SurfaceFormat};

verus! {

/// `v` limited to the range `[lo, hi]`; the lower bound wins when the range is
/// empty.
pub open spec fn clamp_of(v: u32, lo: u32, hi: u32) -> u32 {
    if v > hi { if hi < lo { lo } else { hi } } else if v < lo { lo } else { v }
}

/// The surface leaves the extent to the consumer of the swapchain.
pub open spec fn extent_from_window(caps: SurfaceCapabilities) -> bool {
    caps.current_extent.height == u32::MAX
}

/// The swapchain extent: the window's size clamped to the surface's bounds
/// when the surface leaves the choice to us, else the surface's own extent.
pub open spec fn swap_extent_of(caps: SurfaceCapabilities, window: Extent2D) -> Extent2D {
    if extent_from_window(caps) {
        Extent2D {
            width: clamp_of(window.width, caps.min_image_extent.width, caps.max_image_extent.width),
            height: clamp_of(window.height, caps.min_image_extent.height, caps.max_image_extent.height),
        }
    } else {
        caps.current_extent
    }
}

/// Number of images to request: one more than the surface's minimum (so that
/// the renderer need not wait on the driver), capped by its maximum unless
/// that maximum is zero (no limit).
pub open spec fn image_count_of(caps: SurfaceCapabilities) -> u32 {
    let desired = if caps.min_image_count == u32::MAX { u32::MAX } else { (caps.min_image_count + 1) as u32 };
    if caps.max_image_count == 0 || desired <= caps.max_image_count { desired } else { caps.max_image_count }
}

fn clamp(v: u32, lo: u32, hi: u32) -> (r: u32)
    ensures
        r == clamp_of(v, lo, hi),
{
    if v > hi {
        if hi < lo { lo } else { hi }
    } else if v < lo {
        lo
    } else {
        v
    }
}

/// Chooses the swapchain extent from the surface capabilities and the
/// window's current size in pixels.
pub fn select_swap_extent(caps: &SurfaceCapabilities, window_size: Extent2D) -> (r: Extent2D)
    ensures
        r == swap_extent_of(*caps, window_size),
{
    if caps.current_extent.height == u32::MAX {
        Extent2D {
            width: clamp(window_size.width, caps.min_image_extent.width, caps.max_image_extent.width),
            height: clamp(window_size.height, caps.min_image_extent.height, caps.max_image_extent.height),
        }
    } else {
        caps.current_extent
    }
}

/// Chooses how many images the swapchain holds.
pub fn select_image_count(caps: &SurfaceCapabilities) -> (r: u32)
    ensures
        r == image_count_of(*caps),
{
    let desired = caps.min_image_count.saturating_add(1);
    if caps.max_image_count == 0 || desired <= caps.max_image_count {
        desired
    } else {
        caps.max_image_count
    }
}

/// How swapchain images are shared between queue families.
#[derive(Clone, Copy, PartialEq, Eq, Structural, Debug)]
pub enum SharingMode {
    /// Owned by one queue family at a time.
    Exclusive,
    /// Used by several queue families without ownership transfers.
    Concurrent,
}

/// The sharing mode of swapchain images and the families that share them.
pub struct ImageSharing {
    pub mode: SharingMode,
    /// Empty for exclusive sharing.
    pub queue_family_indices: Vec<u32>,
}

/// Concurrent sharing across the graphics and present families when they
/// differ, exclusive ownership when they are the same family.
pub fn image_sharing(graphics_family: u32, present_family: u32) -> (r: ImageSharing)
    ensures
        graphics_family != present_family ==> {
            &&& r.mode == SharingMode::Concurrent
            &&& r.queue_family_indices@ == seq![graphics_family, present_family]
        },
        graphics_family == present_family ==> {
            &&& r.mode == SharingMode::Exclusive
            &&& r.queue_family_indices@.len() == 0
        },
{
    if graphics_family != present_family {
        let mut indices: Vec<u32> = Vec::new();
        indices.push(graphics_family);
        indices.push(present_family);
        assert(indices@ =~= seq![graphics_family, present_family]);
        ImageSharing { mode: SharingMode::Concurrent, queue_family_indices: indices }
    } else {
        ImageSharing { mode: SharingMode::Exclusive, queue_family_indices: Vec::new() }
    }
}

/// Everything a swapchain is created with.
pub struct SwapchainPlan {
    pub surface_format: SurfaceFormat,
    pub present_mode: i32,
    pub extent: Extent2D,
    pub min_image_count: u32,
    pub sharing: ImageSharing,
    /// Raw surface-transform bits, taken from the surface as it is.
    pub pre_transform: u32,
}

/// Plans the swapchain for a selected device and the window's current size:
/// the device's chosen format and present mode, the extent and image count
/// chosen from the surface capabilities, and the image sharing between the
/// graphics and present families.
pub fn plan_swapchain(device: &PhysicalDevice, window_size: Extent2D) -> (r: SwapchainPlan)
    ensures
        r.surface_format == device.surface_format,
        r.present_mode == device.present_mode,
        r.extent == swap_extent_of(device.surface_caps, window_size),
        r.min_image_count == image_count_of(device.surface_caps),
        r.pre_transform == device.surface_caps.current_transform,
        device.graphics_family != device.present_family ==> {
            &&& r.sharing.mode == SharingMode::Concurrent
            &&& r.sharing.queue_family_indices@ == seq![device.graphics_family, device.present_family]
        },
        device.graphics_family == device.present_family ==> {
            &&& r.sharing.mode == SharingMode::Exclusive
            &&& r.sharing.queue_family_indices@.len() == 0
        },
{
    SwapchainPlan {
        surface_format: device.surface_format,
        present_mode: device.present_mode,
        extent: select_swap_extent(&device.surface_caps, window_size),
        min_image_count: select_image_count(&device.surface_caps),
        sharing: image_sharing(device.graphics_family, device.present_family),
        pre_transform: device.surface_caps.current_transform,
    }
}

} // verus!

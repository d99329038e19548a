use vstd::prelude::*;

verus! {

/// A width and height in pixels.
#[derive(Clone, Copy, PartialEq, Eq, Structural, Debug)]
pub struct Extent2D {
    pub width: u32,
    pub height: u32,
}

/// A pixel format together with the colour space it is presented in, as raw
/// driver enumerants.
#[derive(Clone, Copy, PartialEq, Eq, Structural, Debug)]
pub struct SurfaceFormat {
    pub format: i32,
    pub color_space: i32,
}

/// What a surface allows a swapchain bound to it to be.
#[derive(Clone, Copy, PartialEq, Eq, Structural, Debug)]
pub struct SurfaceCapabilities {
    pub min_image_count: u32,
    /// Zero means that there is no upper limit.
    pub max_image_count: u32,
    /// A height of `u32::MAX` means that the extent is derived from the window.
    pub current_extent: Extent2D,
    pub min_image_extent: Extent2D,
    pub max_image_extent: Extent2D,
    /// Raw surface-transform bits.
    pub current_transform: u32,
}

/// Raw value of the 8-bit BGRA sRGB pixel format.
pub const FORMAT_B8G8R8A8_SRGB: i32 = 50;

/// Raw value of the non-linear sRGB colour space.
pub const COLOR_SPACE_SRGB_NONLINEAR: i32 = 0;

/// Raw value of the low-latency "mailbox" present mode.
pub const PRESENT_MODE_MAILBOX: i32 = 1;

/// The surface format this renderer prefers.
pub open spec fn preferred_format() -> SurfaceFormat {
    SurfaceFormat { format: FORMAT_B8G8R8A8_SRGB, color_space: COLOR_SPACE_SRGB_NONLINEAR }
}

/// The preferred format when offered, else the first one offered.
pub open spec fn chosen_surface_format(formats: Seq<SurfaceFormat>) -> Option<SurfaceFormat> {
    if formats.contains(preferred_format()) {
        Some(preferred_format())
    } else if formats.len() > 0 {
        Some(formats[0])
    } else {
        None
    }
}

/// The mailbox mode when offered, else the first mode offered.
pub open spec fn chosen_present_mode(modes: Seq<i32>) -> Option<i32> {
    if modes.contains(PRESENT_MODE_MAILBOX) {
        Some(PRESENT_MODE_MAILBOX)
    } else if modes.len() > 0 {
        Some(modes[0])
    } else {
        None
    }
}

/// Picks the surface format: the preferred BGRA sRGB format with the sRGB
/// colour space if the device offers it, else the first one it lists.
pub fn select_surface_format(formats: &Vec<SurfaceFormat>) -> (r: Option<SurfaceFormat>)
    ensures
        r == chosen_surface_format(formats@),
{
    let preferred = SurfaceFormat { format: FORMAT_B8G8R8A8_SRGB, color_space: COLOR_SPACE_SRGB_NONLINEAR };
    let mut i: usize = 0;
    while i < formats.len()
        invariant
            0 <= i <= formats.len(),
            preferred == preferred_format(),
            forall|j: int| 0 <= j < i ==> formats@[j] != preferred_format(),
        decreases formats.len() - i,
    {
        if formats[i] == preferred {
            assert(formats@[i as int] == preferred_format());
            return Some(preferred);
        }
        i += 1;
    }
    if formats.len() > 0 {
        Some(formats[0])
    } else {
        None
    }
}

/// Picks the present mode: mailbox if the device offers it, else the first
/// mode it lists.
pub fn select_present_mode(modes: &Vec<i32>) -> (r: Option<i32>)
    ensures
        r == chosen_present_mode(modes@),
{
    let mut i: usize = 0;
    while i < modes.len()
        invariant
            0 <= i <= modes.len(),
            forall|j: int| 0 <= j < i ==> modes@[j] != PRESENT_MODE_MAILBOX,
        decreases modes.len() - i,
    {
        if modes[i] == PRESENT_MODE_MAILBOX {
            assert(modes@[i as int] == PRESENT_MODE_MAILBOX);
            return Some(PRESENT_MODE_MAILBOX);
        }
        i += 1;
    }
    if modes.len() > 0 {
        Some(modes[0])
    } else {
        None
    }
}

} // verus!

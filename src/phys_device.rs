use vstd::prelude::*;

use crate::instance::{missing_names, unsupported_names};
use crate::surface::{
    chosen_present_mode, chosen_surface_format, select_present_mode, select_surface_format,
    SurfaceCapabilities, SurfaceFormat,
};

verus! {

/// Queue-family capability bit: graphics work.
pub const QUEUE_GRAPHICS: u32 = 0x1;

/// Queue-family capability bit: transfer (copy) work.
pub const QUEUE_TRANSFER: u32 = 0x4;

/// Whether the capability bits `flags` include every bit of `flag`.
pub open spec fn has_flag(flags: u32, flag: u32) -> bool {
    flags & flag == flag
}

/// `i` is the first family whose capabilities include `flag`.
pub open spec fn first_with_flag(families: Seq<u32>, flag: u32, i: int) -> bool {
    &&& 0 <= i < families.len()
    &&& has_flag(families[i], flag)
    &&& forall|j: int| 0 <= j < i ==> !has_flag(#[trigger] families[j], flag)
}

/// Some family's capabilities include `flag`.
pub open spec fn any_with_flag(families: Seq<u32>, flag: u32) -> bool {
    exists|i: int| 0 <= i < families.len() && has_flag(#[trigger] families[i], flag)
}

/// Some family other than `graphics` supports transfers.
pub open spec fn has_dedicated_transfer(families: Seq<u32>, graphics: int) -> bool {
    exists|i: int| 0 <= i < families.len() && i != graphics && has_flag(#[trigger] families[i], QUEUE_TRANSFER)
}

/// `t` is the transfer family: the first transfer-capable family other than
/// the graphics family, or the graphics family when there is none.
pub open spec fn is_transfer_choice(families: Seq<u32>, graphics: int, t: int) -> bool {
    if has_dedicated_transfer(families, graphics) {
        &&& 0 <= t < families.len()
        &&& t != graphics
        &&& has_flag(families[t], QUEUE_TRANSFER)
        &&& forall|j: int| 0 <= j < t && j != graphics ==> !has_flag(#[trigger] families[j], QUEUE_TRANSFER)
    } else {
        t == graphics
    }
}

/// `i` is the first family that can present.
pub open spec fn first_presenting(support: Seq<bool>, i: int) -> bool {
    &&& 0 <= i < support.len()
    &&& support[i]
    &&& forall|j: int| 0 <= j < i ==> !#[trigger] support[j]
}

/// The present family: the graphics family if it can present, else the
/// first family that can.
pub open spec fn present_choice(support: Seq<bool>, graphics: int) -> Option<int> {
    if 0 <= graphics < support.len() && support[graphics] {
        Some(graphics)
    } else if exists|i: int| 0 <= i < support.len() && #[trigger] support[i] {
        Some(choose|i: int| first_presenting(support, i))
    } else {
        None
    }
}

/// The indices of the families whose capabilities include `flag`, in order.
pub fn get_queue_families_with_flag(families: &Vec<u32>, flag: u32) -> (r: Vec<u32>)
    requires
        families.len() <= u32::MAX,
    ensures
        forall|k: int| 0 <= k < r.len() ==> {
            &&& (#[trigger] r@[k]) < families.len()
            &&& has_flag(families@[r@[k] as int], flag)
        },
        forall|k: int, l: int| 0 <= k < l < r.len() ==> r@[k] < r@[l],
        forall|i: int| 0 <= i < families.len() && has_flag(#[trigger] families@[i], flag)
            ==> r@.contains(i as u32),
{
    let mut out: Vec<u32> = Vec::new();
    let mut i: usize = 0;
    while i < families.len()
        invariant
            0 <= i <= families.len() <= u32::MAX,
            forall|k: int| 0 <= k < out.len() ==> {
                &&& (#[trigger] out@[k]) < i
                &&& has_flag(families@[out@[k] as int], flag)
            },
            forall|k: int, l: int| 0 <= k < l < out.len() ==> out@[k] < out@[l],
            forall|j: int| 0 <= j < i && has_flag(#[trigger] families@[j], flag)
                ==> out@.contains(j as u32),
        decreases families.len() - i,
    {
        let ghost old_out = out@;
        if families[i] & flag == flag {
            out.push(i as u32);
            assert(out@[out.len() - 1] == i as u32);
            assert forall|j: int| 0 <= j < i && has_flag(#[trigger] families@[j], flag)
                implies out@.contains(j as u32) by {
                let k = choose|k: int| 0 <= k < old_out.len() && old_out[k] == j as u32;
                assert(out@[k] == j as u32);
            }
        }
        i += 1;
    }
    out
}

/// The graphics family: the first family with graphics capability.
pub fn select_graphics_family(families: &Vec<u32>) -> (r: Option<u32>)
    requires
        families.len() <= u32::MAX,
    ensures
        match r {
            Some(g) => first_with_flag(families@, QUEUE_GRAPHICS, g as int),
            None => !any_with_flag(families@, QUEUE_GRAPHICS),
        },
{
    let mut i: usize = 0;
    while i < families.len()
        invariant
            0 <= i <= families.len() <= u32::MAX,
            forall|j: int| 0 <= j < i ==> !has_flag(#[trigger] families@[j], QUEUE_GRAPHICS),
        decreases families.len() - i,
    {
        if families[i] & QUEUE_GRAPHICS == QUEUE_GRAPHICS {
            return Some(i as u32);
        }
        i += 1;
    }
    None
}

/// The transfer family: the first transfer-capable family other than the
/// graphics family, falling back to the graphics family.
pub fn select_transfer_family(families: &Vec<u32>, graphics_family: u32) -> (r: u32)
    requires
        families.len() <= u32::MAX,
    ensures
        is_transfer_choice(families@, graphics_family as int, r as int),
{
    let mut i: usize = 0;
    while i < families.len()
        invariant
            0 <= i <= families.len() <= u32::MAX,
            forall|j: int| 0 <= j < i && j != graphics_family ==> !has_flag(#[trigger] families@[j], QUEUE_TRANSFER),
        decreases families.len() - i,
    {
        if i as u32 != graphics_family && families[i] & QUEUE_TRANSFER == QUEUE_TRANSFER {
            assert(has_dedicated_transfer(families@, graphics_family as int));
            return i as u32;
        }
        i += 1;
    }
    graphics_family
}

/// The present family, from each family's ability to present to the surface:
/// the graphics family if it can present, else the first family that can.
pub fn select_present_family(present_support: &Vec<bool>, graphics_family: u32) -> (r: Option<u32>)
    requires
        present_support.len() <= u32::MAX,
    ensures
        match r {
            Some(p) => present_choice(present_support@, graphics_family as int) == Some(p as int),
            None => present_choice(present_support@, graphics_family as int) is None,
        },
        r matches Some(p) ==> p < present_support.len() && present_support@[p as int],
{
    if (graphics_family as usize) < present_support.len() && present_support[graphics_family as usize] {
        return Some(graphics_family);
    }
    let mut i: usize = 0;
    while i < present_support.len()
        invariant
            0 <= i <= present_support.len() <= u32::MAX,
            !(0 <= graphics_family < present_support.len() && present_support@[graphics_family as int]),
            forall|j: int| 0 <= j < i ==> !#[trigger] present_support@[j],
        decreases present_support.len() - i,
    {
        if present_support[i] {
            assert(first_presenting(present_support@, i as int));
            proof {
                let c = choose|c: int| first_presenting(present_support@, c);
                assert(c == i as int) by {
                    if c < i as int {
                        assert(!present_support@[c]);
                    } else if c > i as int {
                        assert(!present_support@[i as int]);
                    }
                }
            }
            return Some(i as u32);
        }
        i += 1;
    }
    None
}

/// The device extensions the renderer needs: presentation, dynamic rendering
/// and the second-generation synchronisation commands.
pub open spec fn required_device_extension_names() -> Seq<Seq<char>> {
    seq!["VK_KHR_swapchain"@, "VK_KHR_dynamic_rendering"@, "VK_KHR_synchronization2"@]
}

/// The names of the device extensions the renderer needs.
pub fn required_device_extensions() -> (r: Vec<String>)
    ensures
        r.deep_view() == required_device_extension_names(),
{
    let mut v: Vec<String> = Vec::new();
    v.push("VK_KHR_swapchain".to_owned());
    v.push("VK_KHR_dynamic_rendering".to_owned());
    v.push("VK_KHR_synchronization2".to_owned());
    proof {
        reveal_strlit("VK_KHR_swapchain");
        reveal_strlit("VK_KHR_dynamic_rendering");
        reveal_strlit("VK_KHR_synchronization2");
    }
    assert(v.deep_view() =~= required_device_extension_names());
    v
}

/// What the driver reports of one physical device and of its relation to the
/// bound surface, gathered before any decision is taken.
pub struct DeviceCandidate {
    pub name: String,
    /// Names of the device extensions it supports.
    pub extensions: Vec<String>,
    /// Capability bits of each queue family, by family index.
    pub queue_families: Vec<u32>,
    /// Whether each queue family can present to the surface, by family index.
    pub present_support: Vec<bool>,
    pub surface_caps: SurfaceCapabilities,
    pub surface_formats: Vec<SurfaceFormat>,
    /// Raw present modes, in the order the driver lists them.
    pub present_modes: Vec<i32>,
    /// Required alignment of uniform-buffer offsets, in bytes.
    pub min_uniform_buffer_offset_alignment: u64,
}

/// Family indices of a candidate fit in 32 bits.
pub open spec fn candidate_wf(c: &DeviceCandidate) -> bool {
    &&& c.queue_families.len() <= u32::MAX
    &&& c.present_support.len() <= u32::MAX
}

/// The graphics family of a candidate that has one.
pub open spec fn graphics_of(c: &DeviceCandidate) -> int {
    choose|g: int| first_with_flag(c.queue_families@, QUEUE_GRAPHICS, g)
}

/// Every required device extension is supported.
pub open spec fn extensions_ok(c: &DeviceCandidate) -> bool {
    missing_names(required_device_extension_names(), c.extensions.deep_view()).len() == 0
}

/// The candidate passes every filter of device selection.
pub open spec fn suitable(c: &DeviceCandidate) -> bool {
    &&& extensions_ok(c)
    &&& any_with_flag(c.queue_families@, QUEUE_GRAPHICS)
    &&& present_choice(c.present_support@, graphics_of(c)) is Some
    &&& c.surface_formats.len() > 0
    &&& c.present_modes.len() > 0
}

/// The immutable capability snapshot of the selected hardware.
pub struct PhysicalDevice {
    /// Position of the device in the driver's enumeration.
    pub index: usize,
    pub name: String,
    pub graphics_family: u32,
    pub transfer_family: u32,
    pub present_family: u32,
    pub surface_caps: SurfaceCapabilities,
    pub surface_format: SurfaceFormat,
    pub present_mode: i32,
    pub min_uniform_buffer_offset_alignment: u64,
}

/// `d` is the snapshot of candidate `c`, found at position `index`.
pub open spec fn describes(d: &PhysicalDevice, index: int, c: &DeviceCandidate) -> bool {
    &&& d.index == index
    &&& d.name@ == c.name@
    &&& d.graphics_family == graphics_of(c)
    &&& first_with_flag(c.queue_families@, QUEUE_GRAPHICS, d.graphics_family as int)
    &&& is_transfer_choice(c.queue_families@, d.graphics_family as int, d.transfer_family as int)
    &&& present_choice(c.present_support@, d.graphics_family as int) == Some(d.present_family as int)
    &&& chosen_surface_format(c.surface_formats@) == Some(d.surface_format)
    &&& chosen_present_mode(c.present_modes@) == Some(d.present_mode)
    &&& d.surface_caps == c.surface_caps
    &&& d.min_uniform_buffer_offset_alignment == c.min_uniform_buffer_offset_alignment
}

/// Why a physical device was rejected.
#[derive(Debug)]
pub enum PhysicalDeviceCreateError {
    /// The driver reported a failure (its raw result code).
    VkError(i32),
    /// Every required device extension it lacks.
    UnsupportedExtensions(Vec<String>),
    NoGraphicsFamily,
    NoPresentFamily,
    NoSurfaceFormat,
    NoPresentMode,
}

/// The first family with a flag is unique.
proof fn lemma_first_with_flag_unique(families: Seq<u32>, flag: u32, a: int, b: int)
    requires
        first_with_flag(families, flag, a),
        first_with_flag(families, flag, b),
    ensures
        a == b,
{
    if a < b {
        assert(!has_flag(families[a], flag));
    } else if b < a {
        assert(!has_flag(families[b], flag));
    }
}

impl PhysicalDevice {
    /// Applies the selection filters to one candidate, in order: required
    /// extensions, a graphics family, a present family, a surface format, a
    /// present mode. On success the snapshot records the chosen families,
    /// format and mode.
    pub fn new(index: usize, c: &DeviceCandidate) -> (r: Result<PhysicalDevice, PhysicalDeviceCreateError>)
        requires
            candidate_wf(c),
        ensures
            match r {
                Ok(d) => suitable(c) && describes(&d, index as int, c),
                Err(PhysicalDeviceCreateError::UnsupportedExtensions(v)) => {
                    &&& v.deep_view() == missing_names(required_device_extension_names(), c.extensions.deep_view())
                    &&& !extensions_ok(c)
                },
                Err(PhysicalDeviceCreateError::NoGraphicsFamily) => {
                    extensions_ok(c) && !any_with_flag(c.queue_families@, QUEUE_GRAPHICS)
                },
                Err(PhysicalDeviceCreateError::NoPresentFamily) => {
                    &&& extensions_ok(c)
                    &&& any_with_flag(c.queue_families@, QUEUE_GRAPHICS)
                    &&& present_choice(c.present_support@, graphics_of(c)) is None
                },
                Err(PhysicalDeviceCreateError::NoSurfaceFormat) => {
                    &&& extensions_ok(c)
                    &&& any_with_flag(c.queue_families@, QUEUE_GRAPHICS)
                    &&& present_choice(c.present_support@, graphics_of(c)) is Some
                    &&& c.surface_formats.len() == 0
                },
                Err(PhysicalDeviceCreateError::NoPresentMode) => {
                    &&& extensions_ok(c)
                    &&& any_with_flag(c.queue_families@, QUEUE_GRAPHICS)
                    &&& present_choice(c.present_support@, graphics_of(c)) is Some
                    &&& c.surface_formats.len() > 0
                    &&& c.present_modes.len() == 0
                },
                Err(PhysicalDeviceCreateError::VkError(_)) => false,
            },
    {
        let required = required_device_extensions();
        let unsupported = unsupported_names(&required, &c.extensions);
        if unsupported.len() > 0 {
            return Err(PhysicalDeviceCreateError::UnsupportedExtensions(unsupported));
        }
        let graphics_family = match select_graphics_family(&c.queue_families) {
            Some(g) => g,
            None => {
                return Err(PhysicalDeviceCreateError::NoGraphicsFamily);
            },
        };
        proof {
            lemma_first_with_flag_unique(c.queue_families@, QUEUE_GRAPHICS, graphics_family as int, graphics_of(c));
        }
        let transfer_family = select_transfer_family(&c.queue_families, graphics_family);
        let present_family = match select_present_family(&c.present_support, graphics_family) {
            Some(p) => p,
            None => {
                return Err(PhysicalDeviceCreateError::NoPresentFamily);
            },
        };
        let surface_format = match select_surface_format(&c.surface_formats) {
            Some(f) => f,
            None => {
                return Err(PhysicalDeviceCreateError::NoSurfaceFormat);
            },
        };
        let present_mode = match select_present_mode(&c.present_modes) {
            Some(m) => m,
            None => {
                return Err(PhysicalDeviceCreateError::NoPresentMode);
            },
        };
        Ok(PhysicalDevice {
            index,
            name: c.name.clone(),
            graphics_family,
            transfer_family,
            present_family,
            surface_caps: c.surface_caps,
            surface_format,
            present_mode,
            min_uniform_buffer_offset_alignment: c.min_uniform_buffer_offset_alignment,
        })
    }

    /// Selects the first candidate that passes every filter. There is no
    /// scoring: a later, more capable device never wins over an earlier one.
    pub fn select_device(candidates: &Vec<DeviceCandidate>) -> (r: Option<PhysicalDevice>)
        requires
            forall|i: int| 0 <= i < candidates.len() ==> candidate_wf(&#[trigger] candidates@[i]),
        ensures
            match r {
                Some(d) => {
                    &&& d.index < candidates.len()
                    &&& suitable(&candidates@[d.index as int])
                    &&& describes(&d, d.index as int, &candidates@[d.index as int])
                    &&& forall|j: int| 0 <= j < d.index ==> !suitable(&#[trigger] candidates@[j])
                },
                None => forall|j: int| 0 <= j < candidates.len() ==> !suitable(&#[trigger] candidates@[j]),
            },
    {
        let mut i: usize = 0;
        while i < candidates.len()
            invariant
                0 <= i <= candidates.len(),
                forall|k: int| 0 <= k < candidates.len() ==> candidate_wf(&#[trigger] candidates@[k]),
                forall|j: int| 0 <= j < i ==> !suitable(&#[trigger] candidates@[j]),
            decreases candidates.len() - i,
        {
            match PhysicalDevice::new(i, &candidates[i]) {
                Ok(d) => {
                    return Some(d);
                },
                Err(_) => {},
            }
            i += 1;
        }
        None
    }

    pub fn name(&self) -> (r: &String)
        ensures
            r == &self.name,
    {
        &self.name
    }

    pub fn graphics_family(&self) -> (r: u32)
        ensures
            r == self.graphics_family,
    {
        self.graphics_family
    }

    pub fn transfer_family(&self) -> (r: u32)
        ensures
            r == self.transfer_family,
    {
        self.transfer_family
    }

    pub fn present_family(&self) -> (r: u32)
        ensures
            r == self.present_family,
    {
        self.present_family
    }

    pub fn surface_caps(&self) -> (r: SurfaceCapabilities)
        ensures
            r == self.surface_caps,
    {
        self.surface_caps
    }

    pub fn surface_format(&self) -> (r: SurfaceFormat)
        ensures
            r == self.surface_format,
    {
        self.surface_format
    }

    pub fn present_mode(&self) -> (r: i32)
        ensures
            r == self.present_mode,
    {
        self.present_mode
    }
}

} // verus!

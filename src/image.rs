use vstd::prelude::*;

verus! {

/// The memory layouts an image passes through during a frame.
#[derive(Clone, Copy, PartialEq, Eq, Structural, Debug)]
pub enum ImageLayout {
    Undefined,
    ColorAttachmentOptimal,
    DepthAttachmentOptimal,
    PresentSrc,
}

/// Pipeline stages that image transitions synchronise with.
#[derive(Clone, Copy, PartialEq, Eq, Structural, Debug)]
pub enum PipelineStage {
    ColorAttachmentOutput,
    EarlyFragmentTests,
    BottomOfPipe,
}

/// Memory accesses that image transitions make visible.
#[derive(Clone, Copy, PartialEq, Eq, Structural, Debug)]
pub enum Access {
    NoAccess,
    ColorAttachmentWrite,
    DepthAttachmentWrite,
}

/// Which aspect of an image a transition covers.
#[derive(Clone, Copy, PartialEq, Eq, Structural, Debug)]
pub enum ImageAspect {
    Color,
    Depth,
}

/// The layout of an image and the stage and access that last used it (or
/// will next use it).
#[derive(Clone, Copy, PartialEq, Eq, Structural, Debug)]
pub struct ImageBarrierState {
    pub layout: ImageLayout,
    pub stage: PipelineStage,
    pub access: Access,
}

/// A layout transition of every mip level and array layer of one aspect.
#[derive(Clone, Copy, PartialEq, Eq, Structural, Debug)]
pub struct ImageTransition {
    pub aspect: ImageAspect,
    pub src: ImageBarrierState,
    pub dst: ImageBarrierState,
}

/// Before drawing: the acquired swapchain image goes from an undefined
/// layout to the colour-attachment layout, ready for colour writes.
pub fn swap_acquire_transition() -> (r: ImageTransition)
    ensures
        r.aspect == ImageAspect::Color,
        r.src == (ImageBarrierState {
            layout: ImageLayout::Undefined,
            stage: PipelineStage::ColorAttachmentOutput,
            access: Access::NoAccess,
        }),
        r.dst == (ImageBarrierState {
            layout: ImageLayout::ColorAttachmentOptimal,
            stage: PipelineStage::ColorAttachmentOutput,
            access: Access::ColorAttachmentWrite,
        }),
{
    ImageTransition {
        aspect: ImageAspect::Color,
        src: ImageBarrierState {
            layout: ImageLayout::Undefined,
            stage: PipelineStage::ColorAttachmentOutput,
            access: Access::NoAccess,
        },
        dst: ImageBarrierState {
            layout: ImageLayout::ColorAttachmentOptimal,
            stage: PipelineStage::ColorAttachmentOutput,
            access: Access::ColorAttachmentWrite,
        },
    }
}

/// After drawing: the swapchain image goes from the colour-attachment
/// layout to the layout the presentation engine reads.
pub fn swap_present_transition() -> (r: ImageTransition)
    ensures
        r.aspect == ImageAspect::Color,
        r.src == (ImageBarrierState {
            layout: ImageLayout::ColorAttachmentOptimal,
            stage: PipelineStage::ColorAttachmentOutput,
            access: Access::ColorAttachmentWrite,
        }),
        r.dst == (ImageBarrierState {
            layout: ImageLayout::PresentSrc,
            stage: PipelineStage::BottomOfPipe,
            access: Access::NoAccess,
        }),
{
    ImageTransition {
        aspect: ImageAspect::Color,
        src: ImageBarrierState {
            layout: ImageLayout::ColorAttachmentOptimal,
            stage: PipelineStage::ColorAttachmentOutput,
            access: Access::ColorAttachmentWrite,
        },
        dst: ImageBarrierState {
            layout: ImageLayout::PresentSrc,
            stage: PipelineStage::BottomOfPipe,
            access: Access::NoAccess,
        },
    }
}

/// Before drawing: the depth image goes from an undefined layout to the
/// depth-attachment layout, ready for depth tests and writes.
pub fn depth_attachment_transition() -> (r: ImageTransition)
    ensures
        r.aspect == ImageAspect::Depth,
        r.src == (ImageBarrierState {
            layout: ImageLayout::Undefined,
            stage: PipelineStage::EarlyFragmentTests,
            access: Access::NoAccess,
        }),
        r.dst == (ImageBarrierState {
            layout: ImageLayout::DepthAttachmentOptimal,
            stage: PipelineStage::EarlyFragmentTests,
            access: Access::DepthAttachmentWrite,
        }),
{
    ImageTransition {
        aspect: ImageAspect::Depth,
        src: ImageBarrierState {
            layout: ImageLayout::Undefined,
            stage: PipelineStage::EarlyFragmentTests,
            access: Access::NoAccess,
        },
        dst: ImageBarrierState {
            layout: ImageLayout::DepthAttachmentOptimal,
            stage: PipelineStage::EarlyFragmentTests,
            access: Access::DepthAttachmentWrite,
        },
    }
}

/// Raw value of the 32-bit float depth format.
pub const FORMAT_D32_SFLOAT: i32 = 126;

/// Raw value of the 32-bit float depth, 8-bit stencil format.
pub const FORMAT_D32_SFLOAT_S8_UINT: i32 = 130;

/// Raw value of the 24-bit normalised depth, 8-bit stencil format.
pub const FORMAT_D24_UNORM_S8_UINT: i32 = 129;

/// Format-feature bit: usable as a depth/stencil attachment.
pub const FEATURE_DEPTH_STENCIL_ATTACHMENT: u32 = 0x200;

/// The depth formats the renderer accepts, most preferred first.
pub open spec fn depth_format_preference() -> Seq<i32> {
    seq![FORMAT_D32_SFLOAT, FORMAT_D32_SFLOAT_S8_UINT, FORMAT_D24_UNORM_S8_UINT]
}

/// The depth formats the renderer accepts, most preferred first.
pub fn depth_format_candidates() -> (r: Vec<i32>)
    ensures
        r@ == depth_format_preference(),
{
    let mut v: Vec<i32> = Vec::new();
    v.push(FORMAT_D32_SFLOAT);
    v.push(FORMAT_D32_SFLOAT_S8_UINT);
    v.push(FORMAT_D24_UNORM_S8_UINT);
    assert(v@ =~= depth_format_preference());
    v
}

/// A format and the features the device supports for it with optimal
/// tiling.
#[derive(Clone, Copy, PartialEq, Eq, Structural, Debug)]
pub struct FormatSupport {
    pub format: i32,
    pub optimal_tiling_features: u32,
}

/// The format can back a depth attachment.
pub open spec fn usable_for_depth(s: FormatSupport) -> bool {
    s.optimal_tiling_features & FEATURE_DEPTH_STENCIL_ATTACHMENT == FEATURE_DEPTH_STENCIL_ATTACHMENT
}

/// The first of `supported` (given in order of preference) that can back a
/// depth attachment.
pub fn select_depth_format(supported: &Vec<FormatSupport>) -> (r: Option<i32>)
    ensures
        match r {
            Some(f) => exists|i: int| {
                &&& 0 <= i < supported@.len()
                &&& usable_for_depth(#[trigger] supported@[i])
                &&& supported@[i].format == f
                &&& forall|j: int| 0 <= j < i ==> !usable_for_depth(#[trigger] supported@[j])
            },
            None => forall|i: int| 0 <= i < supported@.len() ==> !usable_for_depth(#[trigger] supported@[i]),
        },
{
    let mut i: usize = 0;
    while i < supported.len()
        invariant
            0 <= i <= supported.len(),
            forall|j: int| 0 <= j < i ==> !usable_for_depth(#[trigger] supported@[j]),
        decreases supported.len() - i,
    {
        let s = supported[i];
        if s.optimal_tiling_features & FEATURE_DEPTH_STENCIL_ATTACHMENT == FEATURE_DEPTH_STENCIL_ATTACHMENT {
            assert(usable_for_depth(supported@[i as int]));
            return Some(s.format);
        }
        i += 1;
    }
    None
}

} // verus!

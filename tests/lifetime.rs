use urbrs::image::{
    depth_format_candidates, select_depth_format, swap_acquire_transition, swap_present_transition, FormatSupport,
    ImageLayout, FORMAT_D24_UNORM_S8_UINT, FORMAT_D32_SFLOAT,
};
use urbrs::lifetime::{LifetimeError, ObjectKind, TeardownStack};

#[test]
fn teardown_reverses_construction() {
    let mut s = TeardownStack::new();
    for k in [ObjectKind::Instance, ObjectKind::Surface, ObjectKind::Device, ObjectKind::Swapchain] {
        assert_eq!(s.create(k), Ok(()));
    }
    assert_eq!(
        s.teardown(),
        vec![ObjectKind::Swapchain, ObjectKind::Device, ObjectKind::Surface, ObjectKind::Instance]
    );
    assert!(s.alive.is_empty());
}

#[test]
fn creation_needs_dependencies() {
    let mut s = TeardownStack::new();
    assert_eq!(s.create(ObjectKind::Surface), Err(LifetimeError::MissingDependency(ObjectKind::Instance)));
    s.create(ObjectKind::Instance).unwrap();
    assert_eq!(s.create(ObjectKind::Device), Err(LifetimeError::MissingDependency(ObjectKind::Surface)));
    assert_eq!(s.create(ObjectKind::Instance), Err(LifetimeError::AlreadyAlive));
    s.create(ObjectKind::Surface).unwrap();
    s.create(ObjectKind::Device).unwrap();
    s.create(ObjectKind::Allocator).unwrap();
    s.create(ObjectKind::Swapchain).unwrap();
    assert_eq!(
        s.teardown(),
        vec![ObjectKind::Swapchain, ObjectKind::Allocator, ObjectKind::Device, ObjectKind::Surface, ObjectKind::Instance]
    );
}

#[test]
fn transitions_bracket_the_draw() {
    let a = swap_acquire_transition();
    let p = swap_present_transition();
    assert_eq!(a.src.layout, ImageLayout::Undefined);
    assert_eq!(a.dst.layout, ImageLayout::ColorAttachmentOptimal);
    assert_eq!(p.src, a.dst);
    assert_eq!(p.dst.layout, ImageLayout::PresentSrc);
}

#[test]
fn depth_format_is_first_usable_candidate() {
    let c = depth_format_candidates();
    assert_eq!(c[0], FORMAT_D32_SFLOAT);
    let supported = vec![
        FormatSupport { format: c[0], optimal_tiling_features: 0x1 },
        FormatSupport { format: c[1], optimal_tiling_features: 0x0 },
        FormatSupport { format: c[2], optimal_tiling_features: 0x201 },
    ];
    assert_eq!(select_depth_format(&supported), Some(FORMAT_D24_UNORM_S8_UINT));
    assert_eq!(select_depth_format(&supported[..2].to_vec()), None);
}

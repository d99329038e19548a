use urbrs::device::queue_create_families;
use urbrs::phys_device::{required_device_extensions, DeviceCandidate, PhysicalDevice, QUEUE_GRAPHICS};
use urbrs::surface::{Extent2D, SurfaceCapabilities, SurfaceFormat};
use urbrs::swapchain::{image_sharing, plan_swapchain, select_image_count, select_swap_extent, SharingMode};

fn caps(current: Extent2D, min_count: u32, max_count: u32) -> SurfaceCapabilities {
    SurfaceCapabilities {
        min_image_count: min_count,
        max_image_count: max_count,
        current_extent: current,
        min_image_extent: Extent2D { width: 1, height: 1 },
        max_image_extent: Extent2D { width: 4096, height: 4096 },
        current_transform: 1,
    }
}

const FROM_WINDOW: Extent2D = Extent2D { width: u32::MAX, height: u32::MAX };

#[test]
fn extent_follows_window_when_surface_defers() {
    let c = caps(FROM_WINDOW, 2, 8);
    assert_eq!(select_swap_extent(&c, Extent2D { width: 100, height: 50 }), Extent2D { width: 100, height: 50 });
}

#[test]
fn extent_is_clamped_to_surface_bounds() {
    let c = caps(FROM_WINDOW, 2, 8);
    assert_eq!(select_swap_extent(&c, Extent2D { width: 0, height: 9000 }), Extent2D { width: 1, height: 4096 });
}

#[test]
fn extent_is_the_surface_extent_otherwise() {
    let c = caps(Extent2D { width: 800, height: 600 }, 2, 8);
    assert_eq!(select_swap_extent(&c, Extent2D { width: 100, height: 50 }), Extent2D { width: 800, height: 600 });
    assert_eq!(select_swap_extent(&c, Extent2D { width: 3000, height: 2000 }), Extent2D { width: 800, height: 600 });
}

#[test]
fn image_count_is_one_above_minimum_within_maximum() {
    let e = Extent2D { width: 1, height: 1 };
    assert_eq!(select_image_count(&caps(e, 2, 8)), 3);
    assert_eq!(select_image_count(&caps(e, 2, 0)), 3);
    assert_eq!(select_image_count(&caps(e, 8, 8)), 8);
    assert_eq!(select_image_count(&caps(e, u32::MAX, 0)), u32::MAX);
}

#[test]
fn sharing_is_concurrent_across_distinct_families() {
    let s = image_sharing(0, 1);
    assert_eq!(s.mode, SharingMode::Concurrent);
    assert_eq!(s.queue_family_indices, vec![0, 1]);
}

#[test]
fn sharing_is_exclusive_within_one_family() {
    let s = image_sharing(0, 0);
    assert_eq!(s.mode, SharingMode::Exclusive);
    assert!(s.queue_family_indices.is_empty());
}

#[test]
fn queue_requests_are_deduplicated() {
    assert_eq!(queue_create_families(0, 0, 0), vec![0]);
    assert_eq!(queue_create_families(0, 1, 0), vec![0, 1]);
    assert_eq!(queue_create_families(0, 1, 1), vec![0, 1]);
    assert_eq!(queue_create_families(0, 0, 2), vec![0, 2]);
    assert_eq!(queue_create_families(0, 1, 2), vec![0, 1, 2]);
}

#[test]
fn swapchain_plan_combines_the_choices() {
    let c = DeviceCandidate {
        name: "gpu".to_string(),
        extensions: required_device_extensions(),
        queue_families: vec![QUEUE_GRAPHICS, 0],
        present_support: vec![false, true],
        surface_caps: caps(FROM_WINDOW, 3, 0),
        surface_formats: vec![SurfaceFormat { format: 37, color_space: 0 }],
        present_modes: vec![2],
        min_uniform_buffer_offset_alignment: 64,
    };
    let d = PhysicalDevice::new(0, &c).unwrap();
    let p = plan_swapchain(&d, Extent2D { width: 1920, height: 1080 });
    assert_eq!(p.extent, Extent2D { width: 1920, height: 1080 });
    assert_eq!(p.min_image_count, 4);
    assert_eq!(p.surface_format, SurfaceFormat { format: 37, color_space: 0 });
    assert_eq!(p.present_mode, 2);
    assert_eq!(p.pre_transform, 1);
    assert_eq!(p.sharing.mode, SharingMode::Concurrent);
    assert_eq!(p.sharing.queue_family_indices, vec![0, 1]);
}

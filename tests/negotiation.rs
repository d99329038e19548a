use urbrs::instance::{
    check_instance_support, get_required_instance_extensions, get_required_validation_layers,
    get_unsupported_instance_extensions, get_unsupported_validation_layers, unsupported_names,
    InstanceCreateError,
};
use urbrs::phys_device::{
    get_queue_families_with_flag, required_device_extensions, select_graphics_family,
    select_present_family, select_transfer_family, DeviceCandidate, PhysicalDevice,
    PhysicalDeviceCreateError, QUEUE_GRAPHICS, QUEUE_TRANSFER,
};
use urbrs::surface::{
    select_present_mode, select_surface_format, Extent2D, SurfaceCapabilities, SurfaceFormat,
    COLOR_SPACE_SRGB_NONLINEAR, FORMAT_B8G8R8A8_SRGB, PRESENT_MODE_MAILBOX,
};

fn names(v: &[&str]) -> Vec<String> {
    v.iter().map(|s| s.to_string()).collect()
}

#[test]
fn unsupported_extensions_are_reported_in_full() {
    let required = names(&["A", "B"]);
    let available = names(&["A"]);
    assert_eq!(get_unsupported_instance_extensions(&required, &available), names(&["B"]));
}

#[test]
fn unsupported_names_keep_required_order() {
    let required = names(&["C", "A", "B", "D"]);
    let available = names(&["A", "D", "E"]);
    assert_eq!(unsupported_names(&required, &available), names(&["C", "B"]));
    assert_eq!(get_unsupported_validation_layers(&required, &names(&[])), required);
    assert!(unsupported_names(&names(&[]), &available).is_empty());
}

#[test]
fn instance_support_reports_every_missing_extension() {
    let r = check_instance_support(
        &names(&["A", "B", "C"]),
        &names(&["B"]),
        true,
        &names(&["L"]),
        &names(&[]),
    );
    match r {
        Err(InstanceCreateError::UnsupportedExtensionsAndLayers { extensions, layers }) => {
            assert_eq!(extensions, names(&["A", "C"]));
            assert_eq!(layers, names(&["L"]));
        }
        other => panic!("unexpected {:?}", other),
    }
    let r = check_instance_support(&names(&["A", "B"]), &names(&["B"]), true, &names(&["L"]), &names(&["L"]));
    match r {
        Err(InstanceCreateError::UnsupportedExtensions(v)) => assert_eq!(v, names(&["A"])),
        other => panic!("unexpected {:?}", other),
    }
    let r = check_instance_support(&names(&["A", "B"]), &names(&[]), false, &names(&["L"]), &names(&[]));
    match r {
        Err(InstanceCreateError::UnsupportedExtensions(v)) => assert_eq!(v, names(&["A", "B"])),
        other => panic!("unexpected {:?}", other),
    }
}

#[test]
fn instance_support_reports_missing_layers_only_with_validation() {
    let ext = names(&["A"]);
    let r = check_instance_support(&ext, &ext, true, &names(&["L1", "L2"]), &names(&["L2"]));
    match r {
        Err(InstanceCreateError::UnsupportedValidationLayers(v)) => assert_eq!(v, names(&["L1"])),
        other => panic!("unexpected {:?}", other),
    }
    let r = check_instance_support(&ext, &ext, false, &names(&["L1"]), &names(&[]));
    assert!(r.is_ok());
    let r = check_instance_support(&ext, &names(&["A", "B"]), true, &names(&["L"]), &names(&["L"]));
    assert!(r.is_ok());
}

#[test]
fn required_instance_extensions_add_debug_utils_with_validation() {
    let surface = names(&["VK_KHR_surface", "VK_KHR_xlib_surface"]);
    assert_eq!(
        get_required_instance_extensions(true, &surface),
        names(&["VK_EXT_debug_utils", "VK_KHR_surface", "VK_KHR_xlib_surface"])
    );
    assert_eq!(get_required_instance_extensions(false, &surface), surface);
    assert_eq!(get_required_validation_layers(), names(&["VK_LAYER_KHRONOS_validation"]));
}

#[test]
fn transfer_family_prefers_a_dedicated_family() {
    let families = vec![QUEUE_GRAPHICS | QUEUE_TRANSFER, QUEUE_GRAPHICS, QUEUE_TRANSFER, QUEUE_TRANSFER];
    assert_eq!(select_transfer_family(&families, 0), 2);
}

#[test]
fn transfer_family_falls_back_to_graphics() {
    let families = vec![QUEUE_GRAPHICS | QUEUE_TRANSFER, QUEUE_GRAPHICS];
    assert_eq!(select_transfer_family(&families, 0), 0);
    assert_eq!(select_transfer_family(&vec![0x2, QUEUE_GRAPHICS], 1), 1);
}

#[test]
fn graphics_family_is_the_first_with_graphics() {
    assert_eq!(select_graphics_family(&vec![QUEUE_TRANSFER, 0x3, QUEUE_GRAPHICS]), Some(1));
    assert_eq!(select_graphics_family(&vec![QUEUE_TRANSFER, 0x2]), None);
    assert_eq!(get_queue_families_with_flag(&vec![0x5, 0x1, 0x4, 0x7], QUEUE_TRANSFER), vec![0, 2, 3]);
}

#[test]
fn present_family_prefers_graphics() {
    assert_eq!(select_present_family(&vec![true, true, false], 1), Some(1));
}

#[test]
fn present_family_falls_back_to_first_presenting() {
    assert_eq!(select_present_family(&vec![false, true, true, false], 0), Some(1));
    assert_eq!(select_present_family(&vec![false, false], 0), None);
}

#[test]
fn surface_format_prefers_bgra_srgb() {
    let other = SurfaceFormat { format: 44, color_space: 0 };
    let preferred = SurfaceFormat { format: FORMAT_B8G8R8A8_SRGB, color_space: COLOR_SPACE_SRGB_NONLINEAR };
    let wrong_space = SurfaceFormat { format: FORMAT_B8G8R8A8_SRGB, color_space: 7 };
    assert_eq!(select_surface_format(&vec![other, wrong_space, preferred]), Some(preferred));
    assert_eq!(select_surface_format(&vec![wrong_space, other]), Some(wrong_space));
    assert_eq!(select_surface_format(&vec![]), None);
}

#[test]
fn present_mode_prefers_mailbox() {
    assert_eq!(select_present_mode(&vec![0, 2, PRESENT_MODE_MAILBOX]), Some(PRESENT_MODE_MAILBOX));
    assert_eq!(select_present_mode(&vec![2, 0]), Some(2));
    assert_eq!(select_present_mode(&vec![]), None);
}

fn caps() -> SurfaceCapabilities {
    SurfaceCapabilities {
        min_image_count: 2,
        max_image_count: 8,
        current_extent: Extent2D { width: 800, height: 600 },
        min_image_extent: Extent2D { width: 1, height: 1 },
        max_image_extent: Extent2D { width: 4096, height: 4096 },
        current_transform: 1,
    }
}

fn good_candidate(name: &str) -> DeviceCandidate {
    DeviceCandidate {
        name: name.to_string(),
        extensions: required_device_extensions(),
        queue_families: vec![QUEUE_GRAPHICS | QUEUE_TRANSFER, QUEUE_TRANSFER],
        present_support: vec![true, false],
        surface_caps: caps(),
        surface_formats: vec![SurfaceFormat { format: 44, color_space: 0 }],
        present_modes: vec![2],
        min_uniform_buffer_offset_alignment: 256,
    }
}

#[test]
fn device_snapshot_records_choices() {
    let d = PhysicalDevice::new(4, &good_candidate("gpu")).unwrap();
    assert_eq!(d.index, 4);
    assert_eq!(d.name(), "gpu");
    assert_eq!(d.graphics_family(), 0);
    assert_eq!(d.transfer_family(), 1);
    assert_eq!(d.present_family(), 0);
    assert_eq!(d.surface_format(), SurfaceFormat { format: 44, color_space: 0 });
    assert_eq!(d.present_mode(), 2);
    assert_eq!(d.surface_caps(), caps());
}

#[test]
fn device_rejections_name_the_reason() {
    let mut c = good_candidate("a");
    c.extensions = names(&["VK_KHR_dynamic_rendering"]);
    match PhysicalDevice::new(0, &c) {
        Err(PhysicalDeviceCreateError::UnsupportedExtensions(v)) => {
            assert_eq!(v, names(&["VK_KHR_swapchain", "VK_KHR_synchronization2"]))
        }
        other => panic!("unexpected {:?}", other.err()),
    }
    let mut c = good_candidate("b");
    c.queue_families = vec![QUEUE_TRANSFER, QUEUE_TRANSFER];
    assert!(matches!(PhysicalDevice::new(0, &c), Err(PhysicalDeviceCreateError::NoGraphicsFamily)));
    let mut c = good_candidate("c");
    c.present_support = vec![false, false];
    assert!(matches!(PhysicalDevice::new(0, &c), Err(PhysicalDeviceCreateError::NoPresentFamily)));
    let mut c = good_candidate("d");
    c.surface_formats = vec![];
    assert!(matches!(PhysicalDevice::new(0, &c), Err(PhysicalDeviceCreateError::NoSurfaceFormat)));
    let mut c = good_candidate("e");
    c.present_modes = vec![];
    assert!(matches!(PhysicalDevice::new(0, &c), Err(PhysicalDeviceCreateError::NoPresentMode)));
}

#[test]
fn device_present_family_may_differ_from_graphics() {
    let mut c = good_candidate("f");
    c.present_support = vec![false, true];
    let d = PhysicalDevice::new(0, &c).unwrap();
    assert_eq!(d.graphics_family(), 0);
    assert_eq!(d.present_family(), 1);
}

#[test]
fn selection_returns_the_only_suitable_device() {
    let mut a = good_candidate("a");
    a.queue_families = vec![QUEUE_TRANSFER];
    a.present_support = vec![true];
    let mut b = good_candidate("b");
    b.extensions = vec![];
    let c = good_candidate("c");
    let mut d = good_candidate("d");
    d.present_modes = vec![];
    let d = PhysicalDevice::select_device(&vec![a, b, c, d]).unwrap();
    assert_eq!(d.index, 2);
    assert_eq!(d.name(), "c");
}

#[test]
fn selection_takes_the_first_suitable_device() {
    let d = PhysicalDevice::select_device(&vec![good_candidate("x"), good_candidate("y")]).unwrap();
    assert_eq!(d.index, 0);
    assert!(PhysicalDevice::select_device(&vec![]).is_none());
    let mut bad = good_candidate("z");
    bad.surface_formats = vec![];
    assert!(PhysicalDevice::select_device(&vec![bad]).is_none());
}

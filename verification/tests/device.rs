use vk_engine::device::{
    device_kind_rank, graphics_queue_family, select_device, DeviceChoice, DeviceKind,
    PhysicalDeviceInfo, QueueFamilyInfo,
};

fn family(flags: u32, present: bool) -> QueueFamilyInfo {
    QueueFamilyInfo { queue_flags: flags, presentation_support: present }
}

fn device(ext: bool, kind: DeviceKind, families: Vec<QueueFamilyInfo>) -> PhysicalDeviceInfo {
    PhysicalDeviceInfo { khr_swapchain_supported: ext, kind, queue_families: families }
}

#[test]
fn kind_ranks() {
    assert_eq!(device_kind_rank(DeviceKind::DiscreteGpu), 0);
    assert_eq!(device_kind_rank(DeviceKind::IntegratedGpu), 1);
    assert_eq!(device_kind_rank(DeviceKind::VirtualGpu), 2);
    assert_eq!(device_kind_rank(DeviceKind::Cpu), 3);
    assert_eq!(device_kind_rank(DeviceKind::Other), 4);
    assert_eq!(device_kind_rank(DeviceKind::Unlisted), 5);
}

#[test]
fn first_graphics_family_that_presents() {
    // compute only, graphics without presentation, graphics+present, graphics+present
    let fams = vec![family(0b10, true), family(0b1, false), family(0b111, true), family(0b1, true)];
    assert_eq!(graphics_queue_family(&fams), Some(2));
}

#[test]
fn no_graphics_family() {
    let fams = vec![family(0b110, true), family(0b1, false)];
    assert_eq!(graphics_queue_family(&fams), None);
    assert_eq!(graphics_queue_family(&Vec::new()), None);
}

#[test]
fn discrete_preferred_over_integrated() {
    let devices = vec![
        device(true, DeviceKind::IntegratedGpu, vec![family(1, true)]),
        device(true, DeviceKind::DiscreteGpu, vec![family(2, true), family(3, true)]),
    ];
    assert_eq!(select_device(&devices), Some(DeviceChoice { device_index: 1, queue_family_index: 1 }));
}

#[test]
fn first_of_equal_kind_wins() {
    let devices = vec![
        device(true, DeviceKind::Cpu, vec![family(1, true)]),
        device(true, DeviceKind::VirtualGpu, vec![family(1, true)]),
        device(true, DeviceKind::VirtualGpu, vec![family(1, true)]),
    ];
    assert_eq!(select_device(&devices), Some(DeviceChoice { device_index: 1, queue_family_index: 0 }));
}

#[test]
fn devices_without_extension_or_queue_are_skipped() {
    let devices = vec![
        device(false, DeviceKind::DiscreteGpu, vec![family(1, true)]),
        device(true, DeviceKind::DiscreteGpu, vec![family(1, false)]),
        device(true, DeviceKind::Other, vec![family(4, true), family(5, true)]),
    ];
    assert_eq!(select_device(&devices), Some(DeviceChoice { device_index: 2, queue_family_index: 1 }));
}

#[test]
fn no_device_qualifies() {
    let devices = vec![
        device(false, DeviceKind::DiscreteGpu, vec![family(1, true)]),
        device(true, DeviceKind::IntegratedGpu, vec![]),
    ];
    assert_eq!(select_device(&devices), None);
    assert_eq!(select_device(&Vec::new()), None);
}

#[test]
fn unlisted_kind_ranks_last() {
    let devices = vec![
        device(true, DeviceKind::Unlisted, vec![family(1, true)]),
        device(true, DeviceKind::Other, vec![family(1, true)]),
    ];
    assert_eq!(select_device(&devices), Some(DeviceChoice { device_index: 1, queue_family_index: 0 }));
}

#[test]
fn inserting_worse_devices_keeps_choice() {
    let base = vec![
        device(true, DeviceKind::Cpu, vec![family(1, true)]),
        device(true, DeviceKind::IntegratedGpu, vec![family(2, true), family(1, true)]),
    ];
    assert_eq!(select_device(&base), Some(DeviceChoice { device_index: 1, queue_family_index: 1 }));
    let more = vec![
        device(false, DeviceKind::DiscreteGpu, vec![family(1, true)]),
        device(true, DeviceKind::Cpu, vec![family(1, true)]),
        device(true, DeviceKind::DiscreteGpu, vec![family(1, false)]),
        device(true, DeviceKind::IntegratedGpu, vec![family(2, true), family(1, true)]),
        device(true, DeviceKind::IntegratedGpu, vec![family(1, true)]),
        device(true, DeviceKind::VirtualGpu, vec![family(1, true)]),
    ];
    assert_eq!(select_device(&more), Some(DeviceChoice { device_index: 3, queue_family_index: 1 }));
}

use elements::device::{find_queue_family, select_device, DeviceCandidate, DeviceType, QueueFamily};

fn family(graphics: bool, present: bool) -> QueueFamily {
    QueueFamily { graphics, present }
}

fn candidate(device_type: DeviceType, extensions: bool, families: Vec<QueueFamily>) -> DeviceCandidate {
    DeviceCandidate { device_type, extensions_supported: extensions, families }
}

#[test]
fn ranks_follow_the_preference_order() {
    assert_eq!(DeviceType::DiscreteGpu.rank(), 0);
    assert_eq!(DeviceType::IntegratedGpu.rank(), 1);
    assert_eq!(DeviceType::VirtualGpu.rank(), 2);
    assert_eq!(DeviceType::Cpu.rank(), 3);
    assert_eq!(DeviceType::Other.rank(), 4);
    assert_eq!(DeviceType::Unknown.rank(), 5);
}

#[test]
fn first_family_that_draws_and_presents_is_found() {
    let families =
        vec![family(true, false), family(false, true), family(true, true), family(true, true)];
    assert_eq!(find_queue_family(&families), Some(2));
    assert_eq!(find_queue_family(&vec![family(true, false), family(false, true)]), None);
    assert_eq!(find_queue_family(&Vec::new()), None);
}

#[test]
fn discrete_gpu_is_preferred_to_integrated() {
    let candidates = vec![
        candidate(DeviceType::IntegratedGpu, true, vec![family(true, true)]),
        candidate(DeviceType::Cpu, true, vec![family(true, true)]),
        candidate(DeviceType::DiscreteGpu, true, vec![family(false, false), family(true, true)]),
    ];
    assert_eq!(select_device(&candidates), Some((2, 1)));
}

#[test]
fn earliest_of_equally_ranked_devices_is_taken() {
    let candidates = vec![
        candidate(DeviceType::VirtualGpu, true, vec![family(true, true)]),
        candidate(DeviceType::IntegratedGpu, true, vec![family(true, true)]),
        candidate(DeviceType::IntegratedGpu, true, vec![family(true, true)]),
    ];
    assert_eq!(select_device(&candidates), Some((1, 0)));
}

#[test]
fn devices_without_extension_or_family_are_passed_over() {
    let candidates = vec![
        candidate(DeviceType::DiscreteGpu, false, vec![family(true, true)]),
        candidate(DeviceType::DiscreteGpu, true, vec![family(true, false)]),
        candidate(DeviceType::Unknown, true, vec![family(false, true), family(true, true)]),
    ];
    assert_eq!(select_device(&candidates), Some((2, 1)));
}

#[test]
fn no_eligible_device_is_fatal() {
    assert_eq!(select_device(&Vec::new()), None);
    let candidates = vec![
        candidate(DeviceType::DiscreteGpu, false, vec![family(true, true)]),
        candidate(DeviceType::IntegratedGpu, true, Vec::new()),
    ];
    assert_eq!(select_device(&candidates), None);
}

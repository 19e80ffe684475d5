use scatterplot::{select_physical_device, DeviceCandidate, DeviceKind, QueueFamily};

fn family(graphics: bool, presents: bool) -> QueueFamily {
    QueueFamily { graphics, presents }
}

fn candidate(kind: DeviceKind, has_extensions: bool, queue_families: Vec<QueueFamily>) -> DeviceCandidate {
    DeviceCandidate { kind, has_extensions, queue_families }
}

#[test]
fn prefers_the_first_device_of_the_best_kind() {
    let devices = vec![
        candidate(DeviceKind::Cpu, true, vec![family(true, true)]),
        candidate(DeviceKind::DiscreteGpu, false, vec![family(true, true)]),
        candidate(DeviceKind::IntegratedGpu, true, vec![family(true, false), family(true, true)]),
        candidate(DeviceKind::IntegratedGpu, true, vec![family(true, true)]),
        candidate(DeviceKind::DiscreteGpu, true, vec![family(false, true)]),
    ];
    assert_eq!(select_physical_device(&devices), Some((2, 1)));
}

#[test]
fn no_device_qualifies() {
    let devices = vec![
        candidate(DeviceKind::DiscreteGpu, false, vec![family(true, true)]),
        candidate(DeviceKind::VirtualGpu, true, vec![family(false, true), family(true, false)]),
        candidate(DeviceKind::Other, true, vec![]),
    ];
    assert_eq!(select_physical_device(&devices), None);
    assert_eq!(select_physical_device(&vec![]), None);
}

#[test]
fn unknown_kinds_come_last() {
    let devices = vec![
        candidate(DeviceKind::Other, true, vec![family(true, true)]),
        candidate(DeviceKind::VirtualGpu, true, vec![family(true, true)]),
    ];
    assert_eq!(select_physical_device(&devices), Some((1, 0)));
}

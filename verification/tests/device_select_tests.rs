use higher_dimension_playground::device_select::{
    choose_physical_device, DeviceCandidate, DeviceKind, QueueFamilyInfo,
};

fn family(compute: bool, graphics: bool, presents: bool) -> QueueFamilyInfo {
    QueueFamilyInfo { compute, graphics, presents }
}

fn device(ok: bool, kind: DeviceKind, families: Vec<QueueFamilyInfo>) -> DeviceCandidate {
    DeviceCandidate { supports_requirements: ok, kind, queue_families: families }
}

#[test]
fn discrete_gpu_preferred() {
    let cands = vec![
        device(true, DeviceKind::IntegratedGpu, vec![family(true, true, true)]),
        device(true, DeviceKind::DiscreteGpu, vec![family(false, true, true), family(true, true, true)]),
        device(true, DeviceKind::DiscreteGpu, vec![family(true, true, true)]),
    ];
    assert_eq!(choose_physical_device(&cands, true), Some((1, 1)));
}

#[test]
fn unusable_devices_are_skipped() {
    let cands = vec![
        device(false, DeviceKind::DiscreteGpu, vec![family(true, true, true)]),
        device(true, DeviceKind::DiscreteGpu, vec![family(true, true, false)]),
        device(true, DeviceKind::Cpu, vec![family(true, true, true)]),
    ];
    assert_eq!(choose_physical_device(&cands, true), Some((2, 0)));
    assert_eq!(choose_physical_device(&cands, false), Some((1, 0)));
}

#[test]
fn no_device_at_all() {
    assert_eq!(choose_physical_device(&vec![], false), None);
    let cands = vec![device(true, DeviceKind::Other, vec![family(false, true, true)])];
    assert_eq!(choose_physical_device(&cands, false), None);
}

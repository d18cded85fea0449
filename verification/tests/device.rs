use transparent_text::device::{pick_best_device, pick_composite_alpha, AlphaMode, DeviceClass};

#[test]
fn ranks_order_discrete_first() {
    assert_eq!(DeviceClass::Discrete.rank(), 0);
    assert_eq!(DeviceClass::Integrated.rank(), 1);
    assert_eq!(DeviceClass::Virtual.rank(), 2);
    assert_eq!(DeviceClass::Cpu.rank(), 3);
    assert_eq!(DeviceClass::Other.rank(), 4);
    assert_eq!(DeviceClass::Unknown.rank(), 5);
}

#[test]
fn best_device_is_the_lowest_rank() {
    let classes = vec![DeviceClass::Cpu, DeviceClass::Discrete, DeviceClass::Integrated];
    assert_eq!(pick_best_device(&classes), Some(1));
}

#[test]
fn best_device_ties_go_to_the_first() {
    let classes = vec![
        DeviceClass::Integrated,
        DeviceClass::Integrated,
        DeviceClass::Cpu,
    ];
    assert_eq!(pick_best_device(&classes), Some(0));
}

#[test]
fn no_device_no_choice() {
    let classes: Vec<DeviceClass> = Vec::new();
    assert_eq!(pick_best_device(&classes), None);
}

#[test]
fn composite_alpha_prefers_premultiplied_modes() {
    let supported = vec![AlphaMode::Opaque, AlphaMode::PostMultiplied, AlphaMode::PreMultiplied];
    assert_eq!(pick_composite_alpha(&supported), Some(AlphaMode::PostMultiplied));
}

#[test]
fn composite_alpha_falls_back_to_the_first_supported() {
    let supported = vec![AlphaMode::Opaque, AlphaMode::Inherit];
    assert_eq!(pick_composite_alpha(&supported), Some(AlphaMode::Opaque));
}

#[test]
fn composite_alpha_of_nothing_is_none() {
    let supported: Vec<AlphaMode> = Vec::new();
    assert_eq!(pick_composite_alpha(&supported), None);
}

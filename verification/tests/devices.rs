use openrgb_presets::devices::{
    find_target, is_target_keyboard, is_target_mouse, plan_static_preset, scan_devices,
    ControllerInfo, DeviceScan, DeviceType, StaticPlan, TargetDevice,
};
use openrgb_presets::text::eq_ignore_ascii_case;

fn controller(device_type: DeviceType, vendor: &str, name: &str) -> ControllerInfo {
    ControllerInfo {
        device_type,
        vendor: vendor.to_string(),
        name: name.to_string(),
    }
}

fn keyboard() -> ControllerInfo {
    controller(DeviceType::Keyboard, "Logitech", "Logitech G512 RGB")
}

fn mouse() -> ControllerInfo {
    controller(DeviceType::Mouse, "Logitech", "G502 HERO Gaming Mouse")
}

fn other() -> ControllerInfo {
    controller(DeviceType::Gpu, "NVIDIA", "GeForce RTX")
}

#[test]
fn matches_target_keyboard_case_insensitively() {
    assert!(is_target_keyboard(
        DeviceType::Keyboard,
        "logitech",
        "logitech g512 rgb",
    ));
}

#[test]
fn rejects_unrelated_keyboard() {
    assert!(!is_target_keyboard(
        DeviceType::Keyboard,
        "Logitech",
        "Different Keyboard",
    ));
}

#[test]
fn rejects_target_name_with_wrong_device_type() {
    assert!(!is_target_mouse(
        DeviceType::Keyboard,
        "Logitech",
        "G502 HERO Gaming Mouse",
    ));
}

#[test]
fn matches_target_mouse_in_upper_case() {
    assert!(is_target_mouse(DeviceType::Mouse, "LOGITECH", "G502 HERO GAMING MOUSE"));
    assert!(!is_target_mouse(DeviceType::Mouse, "Logitech", "G502 HERO Gaming Mouse "));
    assert!(!is_target_keyboard(DeviceType::Mouse, "Logitech", "Logitech G512 RGB"));
}

#[test]
fn ascii_comparison_folds_only_ascii_letters() {
    assert!(eq_ignore_ascii_case("AbC-1", "aBc-1"));
    assert!(!eq_ignore_ascii_case("abc", "abcd"));
    assert!(!eq_ignore_ascii_case("Straße", "STRASSE"));
    assert!(!eq_ignore_ascii_case("é", "É"));
    assert!(eq_ignore_ascii_case("", ""));
    assert!(!eq_ignore_ascii_case("[", "{"));
}

#[test]
fn scan_finds_both_devices_in_any_order() {
    let forward = vec![keyboard(), other(), mouse()];
    let backward = vec![mouse(), other(), keyboard()];
    let expected = DeviceScan { keyboard_found: true, mouse_found: true };
    assert_eq!(scan_devices(&forward), expected);
    assert_eq!(scan_devices(&backward), expected);
}

#[test]
fn scan_reports_missing_devices_separately() {
    assert_eq!(
        scan_devices(&[keyboard(), other()]),
        DeviceScan { keyboard_found: true, mouse_found: false }
    );
    assert_eq!(
        scan_devices(&[mouse()]),
        DeviceScan { keyboard_found: false, mouse_found: true }
    );
    assert_eq!(
        scan_devices(&[]),
        DeviceScan { keyboard_found: false, mouse_found: false }
    );
}

#[test]
fn find_target_picks_first_match() {
    let list = vec![other(), keyboard(), mouse(), keyboard()];
    assert_eq!(find_target(&list, TargetDevice::Keyboard), Some(1));
    assert_eq!(find_target(&list, TargetDevice::Mouse), Some(2));
    assert_eq!(find_target(&[other()], TargetDevice::Mouse), None);
}

#[test]
fn static_preset_needs_the_complete_group() {
    assert_eq!(
        plan_static_preset(&[other(), mouse(), keyboard()]),
        StaticPlan::Apply { keyboard: 2, mouse: 1 }
    );
    let partial = plan_static_preset(&[keyboard(), other()]);
    assert_eq!(
        partial,
        StaticPlan::Incomplete { keyboard_found: true, mouse_found: false }
    );
    assert_eq!(partial.found(), (true, false));
    assert_eq!(
        plan_static_preset(&[]),
        StaticPlan::Incomplete { keyboard_found: false, mouse_found: false }
    );
}

#[test]
fn static_preset_reports_what_the_scan_reports() {
    let lists = vec![
        vec![keyboard(), mouse()],
        vec![keyboard()],
        vec![mouse(), other()],
        vec![other()],
    ];
    for list in &lists {
        let scan = scan_devices(list);
        assert_eq!(
            plan_static_preset(list).found(),
            (scan.keyboard_found, scan.mouse_found)
        );
    }
}

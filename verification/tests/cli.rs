use openrgb_presets::cli::{
    device_group_status, parse_command, ripple_result, ripple_status, Command, ExitStatus,
};
use openrgb_presets::input::{is_keyboard_input_name, select_keyboard_input};

fn args(list: &[&str]) -> Vec<String> {
    list.iter().map(|s| s.to_string()).collect()
}

#[test]
fn parses_commands() {
    assert_eq!(parse_command(&args(&["devices"])), Command::Devices);
    assert_eq!(parse_command(&args(&["apply", "cyan-static"])), Command::ApplyCyanStatic);
    assert_eq!(
        parse_command(&args(&["apply", "ripple"])),
        Command::ApplyRipple { speed: None }
    );
    assert_eq!(
        parse_command(&args(&["apply", "ripple", "18.5"])),
        Command::ApplyRipple { speed: Some("18.5".to_string()) }
    );
}

#[test]
fn unknown_commands_print_usage() {
    assert_eq!(parse_command(&args(&[])), Command::Usage);
    assert_eq!(parse_command(&args(&["devices", "extra"])), Command::Usage);
    assert_eq!(parse_command(&args(&["apply", "cyan-static", "1"])), Command::Usage);
    assert_eq!(parse_command(&args(&["apply", "rainbow"])), Command::Usage);
    assert_eq!(parse_command(&args(&["Devices"])), Command::Usage);
    assert_eq!(parse_command(&args(&["apply", "ripple", "1", "2"])), Command::Usage);
}

#[test]
fn exit_codes_follow_outcomes() {
    assert_eq!(ExitStatus::Success.code(), 0);
    assert_eq!(ExitStatus::Error.code(), 1);
    assert_eq!(ExitStatus::Invalid.code(), 2);
    assert_eq!(device_group_status(Some((true, true))), ExitStatus::Success);
    assert_eq!(device_group_status(Some((true, false))), ExitStatus::Invalid);
    assert_eq!(device_group_status(Some((false, false))), ExitStatus::Invalid);
    assert_eq!(device_group_status(None), ExitStatus::Error);
    assert_eq!(ripple_status(Some(true)), ExitStatus::Success);
    assert_eq!(ripple_status(Some(false)), ExitStatus::Invalid);
    assert_eq!(ripple_status(None), ExitStatus::Error);
}

#[test]
fn recognises_primary_keyboard_endpoint() {
    assert!(is_keyboard_input_name("usb-Logitech_G513_Carbon_1234-event-kbd"));
    assert!(!is_keyboard_input_name("usb-Logitech_G513_Carbon_1234-if01-event-kbd"));
    assert!(!is_keyboard_input_name("usb-Logitech_G513_Carbon_1234-event-mouse"));
    assert!(!is_keyboard_input_name("usb-Logitech_G502_HERO-event-kbd"));
    assert!(!is_keyboard_input_name("usb-Logitech_G513_Carbon_"));
    assert!(!is_keyboard_input_name(""));
}

#[test]
fn selects_first_primary_endpoint() {
    let names = args(&[
        "usb-Logitech_G502_HERO-event-mouse",
        "usb-Logitech_G513_Carbon_1-if01-event-kbd",
        "usb-Logitech_G513_Carbon_1-event-kbd",
        "usb-Logitech_G513_Carbon_2-event-kbd",
    ]);
    assert_eq!(select_keyboard_input(&names), Some(2));
    assert_eq!(select_keyboard_input(&names[..2]), None);
}

#[test]
fn ripple_reports_animation_error_before_restore_error() {
    assert_eq!(ripple_result::<&str>(Ok(()), Ok(())), Ok(true));
    assert_eq!(ripple_result(Err("animation"), Err("restore")), Err("animation"));
    assert_eq!(ripple_result(Err("animation"), Ok(())), Err("animation"));
    assert_eq!(ripple_result(Ok(()), Err("restore")), Err("restore"));
}

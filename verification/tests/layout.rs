use evdev::KeyCode;
use openrgb_presets::keymap::led_name_for_key;
use openrgb_presets::layout::{KeyboardLayout, LedEntry};
use openrgb_presets::matrix::{keyboard_coordinates, MatrixCell};

#[test]
fn matrix_assigns_every_keyboard_led() {
    let coordinates = keyboard_coordinates(117);
    assert_eq!(
        coordinates.iter().filter(|point| point.is_some()).count(),
        117
    );
}

#[test]
fn matrix_places_leds_at_their_cells() {
    let coordinates = keyboard_coordinates(117);
    assert_eq!(coordinates[111], Some(MatrixCell { row: 0, column: 0 }));
    assert_eq!(coordinates[0], Some(MatrixCell { row: 4, column: 2 }));
    assert_eq!(coordinates[95], Some(MatrixCell { row: 6, column: 21 }));
    assert_eq!(coordinates[83], Some(MatrixCell { row: 3, column: 22 }));
}

#[test]
fn matrix_ignores_leds_outside_the_controller() {
    let small = keyboard_coordinates(3);
    assert_eq!(small.len(), 3);
    assert_eq!(small[2], Some(MatrixCell { row: 5, column: 4 }));
    let large = keyboard_coordinates(120);
    assert_eq!(large.len(), 120);
    assert_eq!(large[117], None);
    assert_eq!(large[119], None);
    assert!(keyboard_coordinates(0).is_empty());
}

#[test]
fn maps_keypresses_to_openrgb_names() {
    assert_eq!(led_name_for_key(KeyCode::KEY_A.code()), Some("Key: A"));
    assert_eq!(
        led_name_for_key(KeyCode::KEY_KP3.code()),
        Some("Key: Number Pad 3")
    );
    assert_eq!(led_name_for_key(KeyCode::KEY_F12.code()), Some("Key: F12"));
}

#[test]
fn maps_function_and_special_keys() {
    assert_eq!(led_name_for_key(KeyCode::KEY_F1.code()), Some("Key: F1"));
    assert_eq!(led_name_for_key(KeyCode::KEY_F10.code()), Some("Key: F10"));
    assert_eq!(led_name_for_key(127), Some("Key: Menu"));
    assert_eq!(led_name_for_key(139), Some("Key: Menu"));
    assert_eq!(led_name_for_key(43), Some("Key: \\ (ANSI)"));
    assert_eq!(led_name_for_key(0), None);
    assert_eq!(led_name_for_key(84), None);
    assert_eq!(led_name_for_key(200), None);
}

fn entry(name: &str, id: usize) -> LedEntry {
    LedEntry { name: name.to_string(), id }
}

#[test]
fn initial_press_starts_ripple_at_key_cell() {
    // LED 111 sits at the top-left corner of the matrix.
    let layout = KeyboardLayout::new(117, vec![entry("Key: Escape", 111), entry("Key: A", 0)]);
    assert_eq!(
        layout.ripple_origin(KeyCode::KEY_ESC.code(), 1),
        Some(MatrixCell { row: 0, column: 0 })
    );
    assert_eq!(
        layout.ripple_origin(KeyCode::KEY_A.code(), 1),
        Some(MatrixCell { row: 4, column: 2 })
    );
}

#[test]
fn release_and_repeat_start_no_ripple() {
    let layout = KeyboardLayout::new(117, vec![entry("Key: A", 0)]);
    assert_eq!(layout.ripple_origin(KeyCode::KEY_A.code(), 0), None);
    assert_eq!(layout.ripple_origin(KeyCode::KEY_A.code(), 2), None);
}

#[test]
fn unknown_keys_and_leds_start_no_ripple() {
    let layout = KeyboardLayout::new(117, vec![entry("Key: A", 0), entry("Key: B", 500)]);
    assert_eq!(layout.ripple_origin(KeyCode::KEY_B.code(), 1), None);
    assert_eq!(layout.ripple_origin(KeyCode::KEY_C.code(), 1), None);
    assert_eq!(layout.ripple_origin(0, 1), None);
}

#[test]
fn later_led_with_same_name_wins() {
    let layout = KeyboardLayout::new(117, vec![entry("Key: A", 0), entry("Key: A", 111)]);
    assert_eq!(layout.led_id("Key: A"), Some(111));
    assert_eq!(layout.led_id("Key: Z"), None);
    assert_eq!(
        layout.ripple_origin(KeyCode::KEY_A.code(), 1),
        Some(MatrixCell { row: 0, column: 0 })
    );
    assert_eq!(layout.cell_of_led(116), Some(MatrixCell { row: 0, column: 12 }));
    assert_eq!(layout.cell_of_led(117), None);
}

#[test]
fn key_led_names_are_distinct_except_menu() {
    let mut seen: Vec<(u16, &str)> = Vec::new();
    for code in 0..=u16::MAX {
        if let Some(name) = led_name_for_key(code) {
            assert!(name.starts_with("Key: "));
            for &(other, other_name) in &seen {
                if other_name == name {
                    assert_eq!((other, code), (127, 139));
                    assert_eq!(name, "Key: Menu");
                }
            }
            seen.push((code, name));
        }
    }
    assert_eq!(seen.len(), 111);
}

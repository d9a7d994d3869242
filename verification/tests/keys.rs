use fingertip::keymap::{input_to_key_event, key_display_name, vk_code, InputKind, KeyName};
use fingertip::event::KeyEvent;

#[test]
fn letter_a_maps_to_65() {
    assert_eq!(vk_code(KeyName::KeyA), Some(65));
}

#[test]
fn letter_z_maps_to_90() {
    assert_eq!(vk_code(KeyName::KeyZ), Some(90));
}

#[test]
fn number_0_maps_to_48() {
    assert_eq!(vk_code(KeyName::Num0), Some(48));
}

#[test]
fn number_9_maps_to_57() {
    assert_eq!(vk_code(KeyName::Num9), Some(57));
}

#[test]
fn backspace_maps_to_8() {
    assert_eq!(vk_code(KeyName::Backspace), Some(8));
}

#[test]
fn space_maps_to_32() {
    assert_eq!(vk_code(KeyName::Space), Some(32));
}

#[test]
fn enter_maps_to_13() {
    assert_eq!(vk_code(KeyName::Return), Some(13));
}

#[test]
fn modifier_keys_return_none() {
    assert_eq!(vk_code(KeyName::Other), None);
}

#[test]
fn function_keys_return_none() {
    assert_eq!(vk_code(KeyName::Other), None);
    assert_eq!(vk_code(KeyName::Tab), Some(9));
    assert_eq!(vk_code(KeyName::Escape), Some(27));
}

#[test]
fn letter_a_keypress_translates_to_keycode_65() {
    let ke = input_to_key_event(InputKind::Press(KeyName::KeyA), Some(1_700_000_000_123), "session-1")
        .expect("KeyA should map");
    assert_eq!(ke.key_code, 65);
    assert_eq!(ke.session_id, "session-1");
    assert!(ke.timestamp_ms > 0, "timestamp must be unix epoch ms");
    assert_eq!(ke.timestamp_ms, 1_700_000_000_123);
    assert_eq!(ke.modifiers, 0);
}

#[test]
fn number_5_keypress_translates_to_53() {
    let ke = input_to_key_event(InputKind::Press(KeyName::Num5), Some(1), "s").unwrap();
    assert_eq!(ke.key_code, 53);
}

#[test]
fn backspace_translates_to_8() {
    let ke = input_to_key_event(InputKind::Press(KeyName::Backspace), Some(1), "s").unwrap();
    assert_eq!(ke.key_code, 8);
}

#[test]
fn key_release_returns_none() {
    assert!(input_to_key_event(InputKind::Release(KeyName::KeyA), Some(1), "s").is_none());
}

#[test]
fn unsupported_key_returns_none() {
    assert!(input_to_key_event(InputKind::Press(KeyName::Other), Some(1), "s").is_none());
    assert!(input_to_key_event(InputKind::Other, Some(1), "s").is_none());
}

#[test]
fn modifier_shift_returns_none() {
    assert!(input_to_key_event(InputKind::Press(KeyName::Other), Some(1), "s").is_none());
}

#[test]
fn unused_args_zero_timestamp_fallback() {
    let ke = input_to_key_event(InputKind::Press(KeyName::KeyA), Some(0), "s").unwrap();
    assert_eq!(ke.timestamp_ms, 0);
    let ke = input_to_key_event(InputKind::Press(KeyName::KeyA), None, "s").unwrap();
    assert_eq!(ke.timestamp_ms, 0);
}

#[test]
fn key_display_names() {
    assert_eq!(key_display_name(32), "Space");
    assert_eq!(key_display_name(13), "Enter");
    assert_eq!(key_display_name(8), "Backspace");
    assert_eq!(key_display_name(9), "Tab");
    assert_eq!(key_display_name(27), "Esc");
    assert_eq!(key_display_name(65), "A");
    assert_eq!(key_display_name(90), "Z");
    assert_eq!(key_display_name(48), "0");
    assert_eq!(key_display_name(112), "Key(112)");
    assert_eq!(key_display_name(97), "Key(97)");
}

#[test]
fn rdev_converts_keycode() {
    let evt = KeyEvent::now(65, "test-session".into(), 0);
    assert_eq!(evt.key_code, 65);
    assert!(evt.timestamp_ms > 0);
    assert_eq!(evt.session_id, "test-session");
}

use whisper::hotkey::{
    is_hotkey, FLAG_ALPHA_SHIFT, FLAG_ALTERNATE, FLAG_COMMAND, FLAG_CONTROL, FLAG_SHIFT,
    HOTKEY_MODIFIERS, MODIFIER_MASK,
};

#[test]
fn control_space_is_hotkey() {
    assert!(is_hotkey(49, FLAG_CONTROL));
}

#[test]
fn device_bits_do_not_matter() {
    // Non-coalesced flag and device-dependent low bits.
    assert!(is_hotkey(49, FLAG_CONTROL | 0x100 | 0x1));
    assert!(is_hotkey(49, FLAG_CONTROL | 0x0020_0000));
}

#[test]
fn extra_modifier_is_not_hotkey() {
    assert!(!is_hotkey(49, FLAG_CONTROL | FLAG_SHIFT));
    assert!(!is_hotkey(49, FLAG_CONTROL | FLAG_ALTERNATE));
    assert!(!is_hotkey(49, FLAG_CONTROL | FLAG_COMMAND));
    assert!(!is_hotkey(49, FLAG_CONTROL | FLAG_ALPHA_SHIFT));
}

#[test]
fn missing_control_is_not_hotkey() {
    assert!(!is_hotkey(49, 0));
    assert!(!is_hotkey(49, FLAG_ALTERNATE));
}

#[test]
fn other_key_is_not_hotkey() {
    assert!(!is_hotkey(9, FLAG_CONTROL));
    assert!(!is_hotkey(48, FLAG_CONTROL));
}

#[test]
fn keycode_field_read_as_u16() {
    assert!(is_hotkey(49 + 65536, FLAG_CONTROL));
    assert!(!is_hotkey(-1, FLAG_CONTROL));
}

#[test]
fn flag_constants() {
    assert_eq!(
        MODIFIER_MASK,
        FLAG_ALPHA_SHIFT | FLAG_SHIFT | FLAG_CONTROL | FLAG_ALTERNATE | FLAG_COMMAND
    );
    assert_eq!(HOTKEY_MODIFIERS, FLAG_CONTROL);
}

#[test]
fn tap_over_a_sequence_of_events() {
    let events: Vec<(i64, u64)> = vec![
        (4, 0),
        (49, FLAG_CONTROL),
        (49, 0),
        (49, FLAG_CONTROL | 0x100),
        (49, FLAG_CONTROL | FLAG_SHIFT),
    ];
    let mut passed = Vec::new();
    let mut signals = 0;
    for &(k, f) in &events {
        if is_hotkey(k, f) {
            signals += 1;
        } else {
            passed.push((k, f));
        }
    }
    assert_eq!(passed, vec![(4, 0), (49, 0), (49, FLAG_CONTROL | FLAG_SHIFT)]);
    assert_eq!(signals, 2);
}

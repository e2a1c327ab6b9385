use whisper::hotkey::FLAG_COMMAND;
use whisper::injector::{paste_keystrokes, save_item, KeyStroke, PASTE_KEYCODE};

#[test]
fn paste_is_command_v_down_then_up() {
    let ks = paste_keystrokes();
    assert_eq!(
        ks,
        vec![
            KeyStroke { keycode: 9, key_down: true, flags: FLAG_COMMAND },
            KeyStroke { keycode: 9, key_down: false, flags: FLAG_COMMAND },
        ]
    );
    assert_eq!(PASTE_KEYCODE, 9);
}

#[test]
fn save_item_keeps_readable_representations_in_order() {
    let reps = vec![
        ("public.utf8-plain-text".to_string(), Some(b"hi".to_vec())),
        ("public.rtf".to_string(), None),
        ("public.html".to_string(), Some(b"<b>hi</b>".to_vec())),
    ];
    let item = save_item(reps);
    assert_eq!(
        item.entries,
        vec![
            ("public.utf8-plain-text".to_string(), b"hi".to_vec()),
            ("public.html".to_string(), b"<b>hi</b>".to_vec()),
        ]
    );
}

#[test]
fn save_item_of_nothing_is_empty() {
    assert!(save_item(Vec::new()).entries.is_empty());
    assert!(save_item(vec![("t".to_string(), None)]).entries.is_empty());
}

use whisper::config::{expand_tilde, model_path, HOTKEY_KEYCODE, LANGUAGE, MODEL_PATH, PASTE_DELAY_MS};

/// The value that `HOME` holds on a typical machine.
fn home() -> Option<String> {
    Some("/Users/whisper".to_string())
}

#[test]
fn tilde_expansion_replaces_home() {
    let home = home();
    let expanded = expand_tilde("~/foo/bar", home.as_deref());
    assert!(!expanded.starts_with('~'));
    assert!(expanded.ends_with("/foo/bar"));
}

#[test]
fn no_tilde_unchanged() {
    let home = home();
    assert_eq!(expand_tilde("/absolute/path", home.as_deref()), "/absolute/path");
}

#[test]
fn model_path_is_absolute() {
    let home = home();
    let p = model_path(home.as_deref());
    assert!(p.starts_with('/'), "model_path should be absolute: {p}");
    assert!(p.ends_with("ggml-small.en.bin"));
}

#[test]
fn tilde_replaced_by_given_home() {
    assert_eq!(expand_tilde("~/foo/bar", Some("/Users/ada")), "/Users/ada/foo/bar");
    assert_eq!(expand_tilde("~", Some("/Users/ada")), "/Users/ada");
    assert_eq!(expand_tilde("~user/x", Some("/h")), "/huser/x");
}

#[test]
fn tilde_kept_without_home() {
    assert_eq!(expand_tilde("~/foo", None), "~/foo");
}

#[test]
fn tilde_only_expanded_in_front() {
    assert_eq!(expand_tilde("a/~/b", Some("/h")), "a/~/b");
    assert_eq!(expand_tilde("", Some("/h")), "");
}

#[test]
fn model_path_with_home() {
    assert_eq!(
        model_path(Some("/Users/ada")),
        "/Users/ada/.config/whisper/models/ggml-small.en.bin"
    );
    assert_eq!(model_path(None), MODEL_PATH);
}

#[test]
fn configuration_constants() {
    assert_eq!(HOTKEY_KEYCODE, 49);
    assert_eq!(LANGUAGE, "en");
    assert_eq!(PASTE_DELAY_MS, 500);
}

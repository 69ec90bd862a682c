use qwertty_term::keys::arrow_key_bytes;
use qwertty_term::title::compose_window_title;

#[test]
fn arrow_key_bytes_match_upstream_alternate_scroll_sequences() {
    // Normal mode (DECCKM off): CSI A / CSI B.
    assert_eq!(arrow_key_bytes(true, false), b"\x1b[A");
    assert_eq!(arrow_key_bytes(false, false), b"\x1b[B");
    // Application mode (DECCKM on): SS3 A / SS3 B.
    assert_eq!(arrow_key_bytes(true, true), b"\x1bOA");
    assert_eq!(arrow_key_bytes(false, true), b"\x1bOB");
}

#[test]
fn compose_window_title_forces_over_osc_and_applies_decorations() {
    // A configured `title` wins over the program's OSC title.
    assert_eq!(
        compose_window_title(Some("Build"), Some("vim"), true, false, false),
        "Build"
    );
    // Without a forced title, the OSC title is used.
    assert_eq!(
        compose_window_title(None, Some("vim"), true, false, false),
        "vim"
    );
    // Neither, after the grace → ghost; before the grace → app name.
    assert_eq!(compose_window_title(None, None, true, false, false), "👻");
    assert_eq!(
        compose_window_title(None, None, false, false, false),
        "qwertty-term"
    );
    // Bell prefix + password suffix decorate the chosen base (even a forced one).
    assert_eq!(
        compose_window_title(Some("Build"), None, true, true, true),
        "🔔 Build 🔒"
    );
    // An empty OSC title is ignored (falls through to the fallback).
    assert_eq!(
        compose_window_title(None, Some(""), true, false, false),
        "👻"
    );
}

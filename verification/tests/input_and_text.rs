use qwertty_term::files::{path_delivery, temp_file_name, PathDelivery};
use qwertty_term::keybind::WriteScreenAction;
use qwertty_term::launch::background_mode;
use qwertty_term::keys::{focus_change, focus_report_bytes};
use qwertty_term::lock::recover_lock;
use qwertty_term::paste::{paste_payload, unsafe_paste_line_count};
use qwertty_term::smoke::{is_whitespace_char, smoke_marker, synth_key_for_char};
use qwertty_term::title::{
    compose_window_title, window_subtitle_change, window_title_change, WindowSubtitle,
    TITLE_GRACE_NANOS,
};
use std::sync::{Mutex, PoisonError};

#[test]
fn focus_reports_are_csi_i_and_csi_o() {
    assert_eq!(focus_report_bytes(true), b"\x1b[I");
    assert_eq!(focus_report_bytes(false), b"\x1b[O");
}

#[test]
fn focus_change_reports_only_for_live_reporting_panes() {
    assert_eq!(focus_change(false, true, true, false, true), (true, Some(b"\x1b[I".to_vec())));
    assert_eq!(focus_change(false, true, true, false, false), (true, Some(b"\x1b[O".to_vec())));
    // Reporting off: the io thread still hears about focus, nothing is written.
    assert_eq!(focus_change(false, true, false, false, true), (true, None));
    // The lock came back poisoned while reading the mode: no report.
    assert_eq!(focus_change(false, true, true, true, true), (true, None));
    // Dead pane or display-only pane (no pty): nothing at all.
    assert_eq!(focus_change(true, true, true, false, true), (false, None));
    assert_eq!(focus_change(false, false, true, false, true), (false, None));
}

#[test]
fn recover_lock_passes_a_clean_lock_through() {
    let m = Mutex::new(41u32);
    {
        let (mut guard, poisoned) = recover_lock(m.lock());
        assert!(!poisoned);
        *guard += 1;
    }
    let (guard, poisoned) = recover_lock(m.lock());
    assert!(!poisoned);
    assert_eq!(*guard, 42);
}

#[test]
fn recover_lock_hands_back_the_guard_of_a_poisoned_lock() {
    let m = Mutex::new(String::from("crashed-pane"));
    let guard = m.lock().unwrap();
    let (recovered, poisoned) = recover_lock(Err(PoisonError::new(guard)));
    assert!(poisoned, "a poisoned lock must be reported");
    assert!(recovered.contains("crashed-pane"), "the data stays readable");
    drop(recovered);
    let (clean, poisoned) = recover_lock(m.lock());
    assert!(!poisoned);
    assert_eq!(clean.as_str(), "crashed-pane");
}

#[test]
fn paste_payload_wraps_only_when_bracketed() {
    assert_eq!(paste_payload("ls\n", true), b"\x1b[200~ls\n\x1b[201~".to_vec());
    assert_eq!(paste_payload("ls\n", false), b"ls\n".to_vec());
    assert_eq!(paste_payload("", true), b"\x1b[200~\x1b[201~".to_vec());
    assert_eq!(paste_payload("é", false), "é".as_bytes().to_vec());
}

#[test]
fn unsafe_paste_line_count_matches_lines_count_at_least_one() {
    assert_eq!(unsafe_paste_line_count(""), 1);
    assert_eq!(unsafe_paste_line_count("one"), 1);
    assert_eq!(unsafe_paste_line_count("one\n"), 1);
    assert_eq!(unsafe_paste_line_count("one\ntwo"), 2);
    assert_eq!(unsafe_paste_line_count("one\ntwo\n"), 2);
    assert_eq!(unsafe_paste_line_count("\n\n\n"), 3);
    for text in ["a\nb\nc", "x\r\ny\r\n", "\n", "tail\n\nblank"] {
        assert_eq!(unsafe_paste_line_count(text), text.lines().count().max(1));
    }
}

#[test]
fn smoke_marker_takes_the_echo_argument() {
    assert_eq!(smoke_marker("echo hello\n"), "hello");
    assert_eq!(smoke_marker("echo   spaced marker  \r\n"), "spaced marker");
    // No space: the whole script without its line endings.
    assert_eq!(smoke_marker("marker\n\n"), "marker");
    // The argument trims to nothing: fall back to the trimmed script.
    assert_eq!(smoke_marker("echo   \n"), "echo   ");
    assert_eq!(smoke_marker(""), "");
}

#[test]
fn whitespace_test_agrees_with_char_is_whitespace() {
    for c in [' ', '\t', '\n', '\u{a0}', '\u{2003}', '\u{3000}', 'a', '0', '\u{200b}', 'é'] {
        assert_eq!(is_whitespace_char(c), c.is_whitespace(), "{c:?}");
    }
}

#[test]
fn synth_keys_map_newlines_to_return_and_space_to_space() {
    assert_eq!(synth_key_for_char('\n'), (0x24, "\r".to_string()));
    assert_eq!(synth_key_for_char('\r'), (0x24, "\r".to_string()));
    assert_eq!(synth_key_for_char(' '), (0x31, " ".to_string()));
    assert_eq!(synth_key_for_char('x'), (0, "x".to_string()));
    assert_eq!(synth_key_for_char('👻'), (0, "👻".to_string()));
}

#[test]
fn empty_forced_title_blocks_the_osc_title() {
    assert_eq!(compose_window_title(Some(""), Some("vim"), true, false, false), "👻");
    assert_eq!(compose_window_title(None, Some("vim"), false, true, false), "🔔 vim");
    assert_eq!(compose_window_title(None, None, false, false, true), "qwertty-term 🔒");
}

#[test]
fn window_title_is_set_only_on_change() {
    let last = String::from("vim");
    assert_eq!(window_title_change(&last, None, Some("vim"), TITLE_GRACE_NANOS, false, false), None);
    assert_eq!(
        window_title_change(&last, None, Some("vim"), TITLE_GRACE_NANOS, true, false),
        Some("🔔 vim".to_string())
    );
    let blank = String::new();
    assert_eq!(
        window_title_change(&blank, None, None, TITLE_GRACE_NANOS - 1, false, false),
        Some("qwertty-term".to_string())
    );
    assert_eq!(
        window_title_change(&blank, None, None, TITLE_GRACE_NANOS, false, false),
        Some("👻".to_string())
    );
}

#[test]
fn window_subtitle_follows_the_policy() {
    let last = String::new();
    assert_eq!(window_subtitle_change(&last, WindowSubtitle::Disabled, Some("/tmp")), None);
    assert_eq!(
        window_subtitle_change(&last, WindowSubtitle::WorkingDirectory, Some("/tmp")),
        Some("/tmp".to_string())
    );
    assert_eq!(window_subtitle_change(&last, WindowSubtitle::WorkingDirectory, None), None);
    let set = String::from("/tmp");
    assert_eq!(window_subtitle_change(&set, WindowSubtitle::WorkingDirectory, Some("/tmp")), None);
    assert_eq!(window_subtitle_change(&set, WindowSubtitle::Disabled, None), Some(String::new()));
}

#[test]
fn temp_file_names_carry_kind_pid_and_counter() {
    assert_eq!(temp_file_name("scrollback", 4242, 0), "qwertty-term-scrollback-4242-0.txt");
    assert_eq!(temp_file_name("screen", 7, 1234567890), "qwertty-term-screen-7-1234567890.txt");
    assert_eq!(temp_file_name("test", 0, 10), "qwertty-term-test-0-10.txt");
    assert_eq!(
        temp_file_name("selection", u32::MAX, u64::MAX),
        format!("qwertty-term-selection-{}-{}.txt", u32::MAX, u64::MAX)
    );
    assert_ne!(temp_file_name("test", 1, 1), temp_file_name("test", 1, 11));
}

#[test]
fn written_file_paths_are_delivered_per_action() {
    assert_eq!(path_delivery(WriteScreenAction::Copy), PathDelivery::Clipboard);
    assert_eq!(path_delivery(WriteScreenAction::Paste), PathDelivery::TypeIntoFocused);
    assert_eq!(path_delivery(WriteScreenAction::Open), PathDelivery::Open);
}

#[test]
fn background_mode_honours_the_override_then_smoke_runs() {
    assert!(!background_mode(Some("0"), true));
    assert!(background_mode(Some("1"), false));
    assert!(background_mode(Some(""), false));
    assert!(background_mode(Some("00"), false));
    assert!(background_mode(None, true));
    assert!(!background_mode(None, false));
}

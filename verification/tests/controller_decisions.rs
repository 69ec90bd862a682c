use qwertty_term::links::url_at_cell;
use qwertty_term::paste::{paste_step, PasteStep};
use qwertty_term::pump::{pump_report, pump_services};
use qwertty_term::scroll::{apply_wheel_outcome, WheelOutcome};
use qwertty_term::links::{CellUrl, RowCell};
use qwertty_term::health::{crash_banner, SurfaceHealth};
use qwertty_term::keybind::{
    dispatch_keybind_action, handle_action, handle_search_field_chord, keybind_chord_consumed,
    perform_keybind_chord, ChordCommand, CloseTabMode, Dispatch, FontStep, KeySequence,
    KeybindAction, MenuAction, MenuCommand, NavigateSearch, NewSplitDirection, ScrollTo,
    SearchAction, SeqOutcome, SeqStep, Sequential, SplitAction, SplitFocusDirection,
    SplitResizeDirection, WriteScreenAction,
};
use qwertty_term::mouse::{
    click_opens_link, context_menu_command, drag_is_rectangular, left_button_route,
    press_behaviors, press_clears_selection, press_continues_selection, right_click_direct,
    Behavior, ContextAction, ContextCommand, LeftButtonRoute, RightClickAction, RightClickEffect,
};
use qwertty_term::pump::{drain_io_events, pair_command_boundaries, CommandBoundary, IoEvent};
use qwertty_term::session::SplitDirection;
use qwertty_term::tabs::TabAction;
use qwertty_term::tick::{pane_tick, tab_tick, tick_end, PaneReport, PaneStatus, TickSettings};
use qwertty_term::tmux::{
    close_tab_confirmed, control_tab_visibility, next_surface_id, tmux_split_flags,
    update_tmux_tab, window_should_close, ControlTabVisibility, MouseAction, PaneMouseOp,
    PanePoint, PaneSelection, TabClose, WindowClose,
};

#[test]
fn chords_map_onto_controller_commands() {
    assert_eq!(perform_keybind_chord(KeybindAction::NextTab, false), Some(ChordCommand::Tab(TabAction::NextTab)));
    assert_eq!(
        perform_keybind_chord(KeybindAction::GotoTab(3), false),
        Some(ChordCommand::Tab(TabAction::GotoTab(3)))
    );
    assert_eq!(
        perform_keybind_chord(KeybindAction::NewSplit(NewSplitDirection::Auto), false),
        Some(ChordCommand::Split(SplitAction::NewSplit(SplitDirection::Right)))
    );
    assert_eq!(
        perform_keybind_chord(KeybindAction::GotoSplit(SplitFocusDirection::Previous), false),
        Some(ChordCommand::Split(SplitAction::GotoAdjacent(Sequential::Previous)))
    );
    assert_eq!(
        perform_keybind_chord(KeybindAction::GotoSplit(SplitFocusDirection::Up), false),
        Some(ChordCommand::Split(SplitAction::GotoSplit(SplitDirection::Up)))
    );
    assert_eq!(
        perform_keybind_chord(KeybindAction::ResizeSplit(SplitResizeDirection::Left), false),
        Some(ChordCommand::Split(SplitAction::ResizeSplit(SplitDirection::Left)))
    );
    assert_eq!(
        perform_keybind_chord(KeybindAction::ScrollPageLines(-3), false),
        Some(ChordCommand::Scroll(ScrollTo::Lines(-3)))
    );
    assert_eq!(perform_keybind_chord(KeybindAction::ResetFontSize, false), Some(ChordCommand::FontSize(FontStep::Reset)));
    assert_eq!(
        perform_keybind_chord(KeybindAction::WriteScreenFile(WriteScreenAction::Open), false),
        Some(ChordCommand::WriteScreenFile(WriteScreenAction::Open))
    );
    assert_eq!(perform_keybind_chord(KeybindAction::CloseTab(CloseTabMode::This), false), Some(ChordCommand::CloseTab));
    assert_eq!(perform_keybind_chord(KeybindAction::CloseTab(CloseTabMode::Other), false), None);
    assert_eq!(perform_keybind_chord(KeybindAction::Other, true), None);
}

#[test]
fn end_search_only_consumes_escape_while_searching() {
    assert_eq!(perform_keybind_chord(KeybindAction::EndSearch, false), None);
    assert_eq!(
        perform_keybind_chord(KeybindAction::EndSearch, true),
        Some(ChordCommand::Search(SearchAction::End))
    );
    assert_eq!(handle_search_field_chord(&vec![KeybindAction::EndSearch], false), None);
    assert_eq!(handle_search_field_chord(&vec![KeybindAction::EndSearch], true), Some(SearchAction::End));
    assert_eq!(
        handle_search_field_chord(&vec![KeybindAction::NavigateSearch(NavigateSearch::Previous)], false),
        Some(SearchAction::Previous)
    );
    assert_eq!(handle_search_field_chord(&vec![KeybindAction::CopyToClipboard], true), None);
    assert_eq!(
        handle_search_field_chord(&vec![KeybindAction::StartSearch, KeybindAction::StartSearch], true),
        None
    );
    assert_eq!(handle_search_field_chord(&vec![], true), None);
}

#[test]
fn byte_actions_write_and_others_dispatch() {
    assert_eq!(dispatch_keybind_action(KeybindAction::Other, true, false), Some(Dispatch::SendBytes));
    assert_eq!(
        dispatch_keybind_action(KeybindAction::PasteFromClipboard, false, false),
        Some(Dispatch::Command(ChordCommand::Paste))
    );
    assert_eq!(dispatch_keybind_action(KeybindAction::Other, false, false), None);
    assert!(!keybind_chord_consumed(&vec![]));
    assert!(keybind_chord_consumed(&vec![true]));
    assert!(!keybind_chord_consumed(&vec![false]));
    assert!(keybind_chord_consumed(&vec![false, false]));
}

#[test]
fn leader_sequences_descend_dispatch_and_abort() {
    let mut seq: KeySequence<u32> = KeySequence::new();
    assert!(matches!(seq.handle_key_sequence::<u8>(SeqStep::NoMatch), SeqOutcome::NotSequence));
    assert!(matches!(seq.handle_key_sequence::<u8>(SeqStep::Leaf(vec![1])), SeqOutcome::NotSequence));
    assert!(matches!(seq.handle_key_sequence::<u8>(SeqStep::Descend(7)), SeqOutcome::Descended));
    assert!(matches!(seq.handle_key_sequence::<u8>(SeqStep::Descend(8)), SeqOutcome::Descended));
    assert_eq!(seq.path, Some(vec![7, 8]));
    match seq.handle_key_sequence::<u8>(SeqStep::Leaf(vec![4, 5])) {
        SeqOutcome::Dispatch(actions) => assert_eq!(actions, vec![4, 5]),
        _ => panic!("a completed sequence dispatches its actions"),
    }
    assert_eq!(seq.path, None);
    seq.handle_key_sequence::<u8>(SeqStep::Descend(1));
    assert!(matches!(seq.handle_key_sequence::<u8>(SeqStep::NoMatch), SeqOutcome::Aborted));
    assert_eq!(seq.path, None);
}

#[test]
fn menu_actions_need_an_active_tab_for_tab_commands() {
    assert_eq!(handle_action(MenuAction::NewTab, true), MenuCommand::NewTabInActive);
    assert_eq!(handle_action(MenuAction::NewTab, false), MenuCommand::NewWindow);
    assert_eq!(handle_action(MenuAction::CloseTab, true), MenuCommand::CloseActiveTab);
    assert_eq!(handle_action(MenuAction::CloseTab, false), MenuCommand::Nothing);
    assert_eq!(handle_action(MenuAction::ShowPreviousTab, false), MenuCommand::Tab(TabAction::PreviousTab));
    assert_eq!(handle_action(MenuAction::FontSizeUp, true), MenuCommand::FontSize(FontStep::Up));
    assert_eq!(handle_action(MenuAction::Quit, false), MenuCommand::Quit);
}

#[test]
fn tmux_control_tab_comes_back_with_the_last_window() {
    assert_eq!(control_tab_visibility(Some(true)), ControlTabVisibility::Hide);
    assert_eq!(control_tab_visibility(Some(false)), ControlTabVisibility::RestoreAndDetach);
    assert_eq!(control_tab_visibility(None), ControlTabVisibility::Restore);
}

#[test]
fn tmux_tabs_close_through_tmux() {
    assert_eq!(window_should_close(Some(4), true, false), WindowClose::KillTmuxWindow(4));
    assert_eq!(window_should_close(None, true, true), WindowClose::Veto);
    assert_eq!(window_should_close(None, false, true), WindowClose::Confirm { teardown_control: true });
    assert_eq!(close_tab_confirmed(Some(2), true), TabClose::KillTmuxWindow(2));
    assert_eq!(close_tab_confirmed(None, true), TabClose::Ignore);
    assert_eq!(close_tab_confirmed(None, false), TabClose::CloseFocusedPane);
    assert_eq!(tmux_split_flags(SplitDirection::Right), (true, false));
    assert_eq!(tmux_split_flags(SplitDirection::Left), (true, true));
    assert_eq!(tmux_split_flags(SplitDirection::Down), (false, false));
    assert_eq!(tmux_split_flags(SplitDirection::Up), (false, true));
}

#[test]
fn tmux_tab_update_diffs_pane_sets() {
    assert_eq!(next_surface_id(&vec![]), 0);
    assert_eq!(next_surface_id(&vec![3, 9, 1]), 10);
    let diff = update_tmux_tab(&vec![1, 2, 3, 3], &vec![2, 4, 4, 5], 1);
    let mut add = diff.to_add.clone();
    add.sort();
    let mut remove = diff.to_remove.clone();
    remove.sort();
    assert_eq!(add, vec![4, 5]);
    assert_eq!(remove, vec![1, 3]);
    assert!(diff.focus_removed);
    let same = update_tmux_tab(&vec![7, 8], &vec![8, 7], 8);
    assert!(same.to_add.is_empty() && same.to_remove.is_empty() && !same.focus_removed);
}

#[test]
fn tmux_pane_press_drag_release_selects_and_ends() {
    let mut sel = PaneSelection::new();
    let p = PanePoint { col: 1, row: 2, scrollback_offset: 0 };
    let q = PanePoint { col: 5, row: 3, scrollback_offset: 0 };
    assert_eq!(sel.tmux_pane_mouse(true, Some(true), false, true, MouseAction::Press, p, false), Some(PaneMouseOp::Clear));
    assert_eq!(
        sel.tmux_pane_mouse(true, None, false, true, MouseAction::Motion, q, true),
        Some(PaneMouseOp::Extend { anchor: p, current: q, rectangle: true })
    );
    assert_eq!(
        sel.tmux_pane_mouse(true, Some(false), false, true, MouseAction::Release, q, false),
        Some(PaneMouseOp::Release)
    );
    assert_eq!(sel.tmux_pane_mouse(true, None, false, true, MouseAction::Motion, q, false), Some(PaneMouseOp::Ignore));
    assert_eq!(sel.anchor, None);
    // A reporting program gets the event and any selection is dropped.
    assert_eq!(sel.tmux_pane_mouse(true, Some(true), true, true, MouseAction::Press, p, false), Some(PaneMouseOp::Report));
    assert!(sel.button_down);
    assert_eq!(sel.tmux_pane_mouse(true, None, false, false, MouseAction::Press, p, false), Some(PaneMouseOp::Ignore));
    // An ordinary pane is not handled here, and nothing changes.
    let before = sel;
    assert_eq!(sel.tmux_pane_mouse(false, Some(false), false, true, MouseAction::Press, q, false), None);
    assert_eq!(sel, before);
}

#[test]
fn poisoned_surface_stays_dead_and_banners_once() {
    let mut h = SurfaceHealth::new();
    h.engine(false);
    assert!(!h.is_dead());
    h.engine(true);
    assert!(h.is_dead());
    assert_eq!(h.dead_reason.as_deref(), Some("engine thread panicked (lock poisoned)"));
    h.engine(false);
    h.engine(true);
    assert!(h.is_dead());
    let banner = h.settle_dead().expect("the first settle paints the banner");
    assert_eq!(banner, crash_banner("engine thread panicked (lock poisoned)"));
    assert!(banner.starts_with("\x1b[2J\x1b[H\x1b[1;31m[terminal crashed — engine thread panicked"));
    assert_eq!(h.settle_dead(), None);
    assert_eq!(h.settle_dead(), None);
    assert!(h.is_dead());
}

#[test]
fn crash_banner_without_a_reason_says_unknown() {
    let mut h = SurfaceHealth { dead: true, dead_reason: None, banner_drawn: false };
    let banner = h.settle_dead().unwrap();
    assert!(banner.contains("[terminal crashed — unknown]"));
    assert!(banner.ends_with("Close this pane to dismiss.\r\n"));
}

#[test]
fn command_boundaries_time_each_command() {
    let b = vec![CommandBoundary::OutputStart, CommandBoundary::End { exit_code: Some(2) }];
    assert_eq!(pair_command_boundaries(None, &b, 100), (None, Some((Some(2), 0))));
    // A command started in an earlier pump finishes now.
    let end = vec![CommandBoundary::End { exit_code: None }];
    assert_eq!(pair_command_boundaries(Some(40), &end, 100), (None, Some((None, 60))));
    // An end with no start reports nothing.
    assert_eq!(pair_command_boundaries(None, &end, 100), (None, None));
    // A start with no end keeps the timer running.
    assert_eq!(pair_command_boundaries(Some(10), &vec![CommandBoundary::OutputStart], 70), (Some(70), None));
    assert_eq!(pair_command_boundaries(Some(10), &vec![], 70), (Some(10), None));
}

#[test]
fn io_events_report_exit_and_the_latest_password_state() {
    assert_eq!(drain_io_events(&vec![]), (false, None));
    assert_eq!(
        drain_io_events(&vec![IoEvent::PasswordInput(true), IoEvent::PasswordInput(false)]),
        (false, Some(false))
    );
    assert_eq!(
        drain_io_events(&vec![IoEvent::PasswordInput(true), IoEvent::ChildExited { exit_code: 1 }]),
        (true, Some(true))
    );
    assert_eq!(drain_io_events(&vec![IoEvent::ChildExited { exit_code: 0 }]), (true, None));
}

fn settings() -> TickSettings {
    TickSettings {
        bell_active: true,
        bell_title: true,
        desktop_notifications: true,
        notify_on_finish: true,
        progress_style: true,
        render_panes: true,
        key_window: true,
    }
}

fn quiet() -> PaneReport {
    PaneReport {
        exited: false,
        bell: false,
        notification: false,
        command_finished: false,
        progress_report: false,
        password: None,
    }
}

#[test]
fn tick_closes_exited_panes_and_keeps_crashed_ones() {
    let live = PaneStatus { dead: false, display_pane: false, focused: true };
    let crashed = PaneStatus { dead: true, display_pane: false, focused: false };
    let exited = PaneReport { exited: true, ..quiet() };
    let t = pane_tick(live, exited, settings());
    assert!(t.close && !t.render && !t.maintain);
    let c = pane_tick(crashed, quiet(), settings());
    assert!(!c.close && c.settle && c.render && c.maintain);
    let display = PaneStatus { dead: false, display_pane: true, focused: false };
    assert!(!pane_tick(display, quiet(), settings()).render);
    let no_render = TickSettings { render_panes: false, ..settings() };
    assert!(!pane_tick(live, quiet(), no_render).render);
}

#[test]
fn tick_gates_bells_notifications_and_progress() {
    let focused = PaneStatus { dead: false, display_pane: false, focused: true };
    let other = PaneStatus { dead: false, display_pane: false, focused: false };
    let loud = PaneReport {
        bell: true,
        notification: true,
        command_finished: true,
        progress_report: true,
        password: Some(true),
        ..quiet()
    };
    let t = pane_tick(focused, loud, settings());
    assert!(t.ring && t.mark_title && t.collect_notification && t.apply_progress);
    assert_eq!(t.command_finish, Some(true));
    assert_eq!(t.password, Some(true));
    let u = pane_tick(other, loud, settings());
    assert_eq!(u.command_finish, Some(false));
    assert_eq!(u.password, None);
    let off = TickSettings {
        bell_active: false,
        desktop_notifications: false,
        notify_on_finish: false,
        progress_style: false,
        ..settings()
    };
    let v = pane_tick(focused, loud, off);
    assert!(!v.ring && !v.mark_title && !v.collect_notification && !v.apply_progress);
    assert_eq!(v.command_finish, None);
    let untitled = TickSettings { bell_title: false, ..settings() };
    let w = pane_tick(focused, loud, untitled);
    assert!(w.ring && !w.mark_title);
}

#[test]
fn tab_tick_collects_closes_bells_and_the_focused_password() {
    let focused = PaneStatus { dead: false, display_pane: false, focused: true };
    let other = PaneStatus { dead: false, display_pane: false, focused: false };
    let panes = vec![
        (other, PaneReport { exited: true, password: Some(true), ..quiet() }),
        (focused, PaneReport { password: Some(true), ..quiet() }),
        (other, PaneReport { bell: true, ..quiet() }),
        (other, PaneReport { exited: true, ..quiet() }),
    ];
    let t = tab_tick(&panes, settings());
    assert_eq!(t.close, vec![0, 3]);
    assert!(t.rang && t.mark_title);
    assert!(t.password);
    let calm = tab_tick(&vec![(focused, quiet())], settings());
    assert!(calm.close.is_empty() && !calm.rang && !calm.password);
}

#[test]
fn tick_end_rings_once_and_quits_after_the_last_tab() {
    let e = tick_end(true, true, false, 2, true);
    assert!(e.beep && !e.request_attention && !e.quit);
    let f = tick_end(false, true, true, 0, true);
    assert!(!f.beep && !f.request_attention && f.quit);
    assert!(!tick_end(false, true, true, 0, false).quit);
}

#[test]
fn left_button_routes_between_selection_and_reporting() {
    assert_eq!(left_button_route(MouseAction::Press, false, false, false, true), LeftButtonRoute::SelectionPress);
    assert_eq!(left_button_route(MouseAction::Motion, false, false, false, true), LeftButtonRoute::SelectionDrag);
    assert_eq!(left_button_route(MouseAction::Motion, false, false, false, false), LeftButtonRoute::Nothing);
    assert_eq!(left_button_route(MouseAction::Release, false, false, false, false), LeftButtonRoute::SelectionRelease);
    // The program tracks the mouse: its press clears the selection.
    assert_eq!(left_button_route(MouseAction::Press, true, false, false, true), LeftButtonRoute::ClearForReport);
    assert_eq!(left_button_route(MouseAction::Release, true, false, false, false), LeftButtonRoute::Nothing);
    // Shift overrides reporting, unless the program captures shift.
    assert_eq!(left_button_route(MouseAction::Press, true, true, false, true), LeftButtonRoute::SelectionPress);
    assert_eq!(left_button_route(MouseAction::Press, true, true, true, true), LeftButtonRoute::ClearForReport);
    assert!(click_opens_link(MouseAction::Press, true, true));
    assert!(!click_opens_link(MouseAction::Press, false, true));
    assert!(!click_opens_link(MouseAction::Release, true, true));
}

#[test]
fn shift_click_extends_outside_the_repeat_interval() {
    assert!(press_continues_selection(true, 1, true, Some(600), 500));
    assert!(press_continues_selection(true, 1, true, None, 500));
    assert!(!press_continues_selection(true, 1, true, Some(500), 500));
    assert!(!press_continues_selection(true, 0, true, Some(600), 500));
    assert!(!press_continues_selection(true, 2, false, Some(600), 500));
    assert!(!press_continues_selection(false, 1, true, Some(600), 500));
    assert_eq!(press_behaviors(false, false), (Behavior::Cell, Behavior::Word, Behavior::Line));
    assert_eq!(press_behaviors(true, false), (Behavior::Cell, Behavior::Word, Behavior::Output));
    assert_eq!(press_behaviors(false, true).2, Behavior::Output);
    assert!(press_clears_selection(false, 1, true));
    assert!(!press_clears_selection(true, 1, true));
    assert!(!press_clears_selection(false, 2, true));
    assert!(drag_is_rectangular(true, Behavior::Cell));
    assert!(!drag_is_rectangular(true, Behavior::Word));
    assert!(!drag_is_rectangular(false, Behavior::Cell));
}

#[test]
fn right_click_and_context_menu_actions() {
    assert_eq!(right_click_direct(RightClickAction::CopyOrPaste, true), RightClickEffect::Copy);
    assert_eq!(right_click_direct(RightClickAction::CopyOrPaste, false), RightClickEffect::Paste);
    assert_eq!(right_click_direct(RightClickAction::Paste, true), RightClickEffect::Paste);
    assert_eq!(right_click_direct(RightClickAction::Copy, false), RightClickEffect::Copy);
    assert_eq!(right_click_direct(RightClickAction::Ignore, true), RightClickEffect::Nothing);
    assert_eq!(right_click_direct(RightClickAction::ContextMenu, true), RightClickEffect::Nothing);
    assert_eq!(context_menu_command(ContextAction::SplitLeft), ContextCommand::Split(SplitDirection::Left));
    assert_eq!(context_menu_command(ContextAction::SplitDown), ContextCommand::Split(SplitDirection::Down));
    assert_eq!(context_menu_command(ContextAction::ClosePane), ContextCommand::ClosePane);
    assert_eq!(context_menu_command(ContextAction::Copy), ContextCommand::Copy);
}

#[test]
fn command_run_time_saturates_at_zero() {
    let end = vec![CommandBoundary::End { exit_code: Some(0) }];
    assert_eq!(pair_command_boundaries(Some(200), &end, 100), (None, Some((Some(0), 0))));
}

#[test]
fn dead_and_display_panes_pump_nothing() {
    assert!(pump_services(false, false));
    assert!(!pump_services(true, false));
    assert!(!pump_services(false, true));
    let loud = PaneReport { exited: true, bell: true, password: Some(true), ..quiet() };
    assert_eq!(pump_report(false, false, false, loud), loud);
    assert_eq!(pump_report(true, false, false, loud), quiet());
    assert_eq!(pump_report(false, true, false, loud), quiet());
    // The lock came back poisoned while draining: an empty report, so the
    // tick keeps the crashed pane open.
    let rep = pump_report(false, false, true, loud);
    assert_eq!(rep, quiet());
    let crashed = PaneStatus { dead: true, display_pane: false, focused: true };
    let t = pane_tick(crashed, rep, settings());
    assert!(!t.close && t.settle);
}

#[test]
fn unsafe_pastes_need_consent() {
    assert_eq!(paste_step(false, None), PasteStep::Write);
    assert_eq!(paste_step(false, Some(false)), PasteStep::Write);
    assert_eq!(paste_step(true, None), PasteStep::Confirm);
    assert_eq!(paste_step(true, Some(true)), PasteStep::Write);
    assert_eq!(paste_step(true, Some(false)), PasteStep::Drop);
}

#[test]
fn wheel_outcomes_write_keys_report_or_scroll() {
    let keys = apply_wheel_outcome(WheelOutcome::AltScrollKeys { count: 3, up: true }, false, 4, 10, true);
    assert_eq!(keys.offset, 4);
    assert!(keys.reset_selection);
    assert_eq!(keys.pty_writes, vec![b"\x1bOA".to_vec(); 3]);
    assert_eq!(keys.reports, 0);
    let down = apply_wheel_outcome(WheelOutcome::AltScrollKeys { count: 2, up: false }, false, 0, 0, false);
    assert_eq!(down.pty_writes, vec![b"\x1b[B".to_vec(); 2]);
    let rep = apply_wheel_outcome(WheelOutcome::Report { count: 2, up: false }, false, 4, 10, false);
    assert!(rep.reset_selection && rep.pty_writes.is_empty());
    assert_eq!((rep.reports, rep.report_up), (2, false));
    let view = apply_wheel_outcome(WheelOutcome::Viewport { rows_up: 9 }, false, 4, 10, false);
    assert_eq!(view.offset, 10);
    assert!(!view.reset_selection);
    let back = apply_wheel_outcome(WheelOutcome::Viewport { rows_up: -9 }, true, 4, 10, false);
    assert_eq!(back.offset, 0);
    // A display pane only moves its viewport.
    let disp = apply_wheel_outcome(WheelOutcome::AltScrollKeys { count: 3, up: true }, true, 4, 10, false);
    assert!(!disp.reset_selection && disp.pty_writes.is_empty() && disp.offset == 4);
    let none = apply_wheel_outcome(WheelOutcome::Nothing, false, 4, 10, false);
    assert_eq!(none.offset, 4);
    assert!(none.pty_writes.is_empty() && none.reports == 0 && !none.reset_selection);
}

fn cell(ch: char) -> RowCell {
    RowCell { spacer: false, ch, combining: vec![], link: None }
}

#[test]
fn cells_map_to_links_or_text_offsets() {
    // "é" + combining acute on 'x', a wide "字" with its spacer, then "a".
    let mut x = cell('x');
    x.combining = vec!['\u{301}'];
    let mut linked = cell('L');
    linked.link = Some("https://osc8.test".to_string());
    let spacer = RowCell { spacer: true, ch: ' ', combining: vec![], link: None };
    let row = vec![cell('é'), x, cell('字'), spacer, cell('a'), linked];
    let text = "éx\u{301}字aL";
    match url_at_cell(&row, 0) {
        CellUrl::Scan { text: t, byte } => {
            assert_eq!(t, text);
            assert_eq!(byte, 0);
        }
        _ => panic!("expected a scan"),
    }
    match url_at_cell(&row, 2) {
        CellUrl::Scan { byte, .. } => assert_eq!(byte, "éx\u{301}".len()),
        _ => panic!("expected a scan"),
    }
    match url_at_cell(&row, 4) {
        CellUrl::Scan { byte, .. } => assert_eq!(byte, "éx\u{301}字".len()),
        _ => panic!("expected a scan"),
    }
    assert!(matches!(url_at_cell(&row, 3), CellUrl::NotOverText));
    assert!(matches!(url_at_cell(&row, 6), CellUrl::NotOverText));
    match url_at_cell(&row, 5) {
        CellUrl::Link(uri) => assert_eq!(uri, "https://osc8.test"),
        _ => panic!("expected the OSC 8 link"),
    }
}

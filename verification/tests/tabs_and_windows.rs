use qwertty_term::clock::{AppDelegate, Rebind};
use qwertty_term::closing::{
    close_surface_plan, surface_needs_confirm_close, tab_needs_confirm_close, CloseProbe,
    ConfirmCloseSurface, SurfaceClose,
};
use qwertty_term::overlay::{resize_overlay_shows, ResizeOverlay, ResizeOverlayMode};
use qwertty_term::quickterm::{QuickTerminal, QuickTerminalStep};
use qwertty_term::scroll::{
    autoscroll_offset, scroll_match_into_view, selection_autoscroll_step, wheel_viewport_offset,
    Autoscroll,
};
use qwertty_term::session::{
    leftmost_cwd, restore_direction, session_restore_plan, SessionAxis, SessionNode,
    SplitDirection,
};
use qwertty_term::tabs::{tab_action_target, tab_target_index, TabAction};
use qwertty_term::theme::{
    apply_window_save_state_default, background_is_light, default_background, tabbing_mode,
    window_appearance, window_restorable, Appearance, KeepWindowsDefault, TabbingMode,
    WindowSaveState, WindowShowTabBar, WindowTheme,
};

#[test]
fn tab_navigation_wraps_and_clamps() {
    assert_eq!(tab_target_index(TabAction::NextTab, 0, 3), 1);
    assert_eq!(tab_target_index(TabAction::NextTab, 2, 3), 0);
    assert_eq!(tab_target_index(TabAction::PreviousTab, 0, 3), 2);
    assert_eq!(tab_target_index(TabAction::PreviousTab, 2, 3), 1);
    assert_eq!(tab_target_index(TabAction::LastTab, 0, 3), 2);
    assert_eq!(tab_target_index(TabAction::GotoTab(1), 2, 3), 0);
    assert_eq!(tab_target_index(TabAction::GotoTab(2), 0, 3), 1);
    assert_eq!(tab_target_index(TabAction::GotoTab(9), 0, 3), 2);
    assert_eq!(tab_target_index(TabAction::GotoTab(0), 1, 3), 0);
    // A lone window: every action re-selects it.
    for a in [TabAction::NextTab, TabAction::PreviousTab, TabAction::LastTab, TabAction::GotoTab(4)] {
        assert_eq!(tab_target_index(a, 0, 1), 0);
    }
}

#[test]
fn next_then_previous_returns_and_count_nexts_cycle() {
    let count = 5;
    for start in 0..count {
        let n = tab_target_index(TabAction::NextTab, start, count);
        assert_eq!(tab_target_index(TabAction::PreviousTab, n, count), start);
        let mut at = start;
        for _ in 0..count {
            at = tab_target_index(TabAction::NextTab, at, count);
        }
        assert_eq!(at, start);
    }
}

#[test]
fn search_match_scrolls_to_the_viewport_top() {
    assert_eq!(scroll_match_into_view(100, 40), 60);
    assert_eq!(scroll_match_into_view(100, 100), 0);
    assert_eq!(scroll_match_into_view(100, 130), 0);
    assert_eq!(scroll_match_into_view(0, 0), 0);
}

#[test]
fn wheel_and_autoscroll_stay_inside_the_scrollback() {
    assert_eq!(wheel_viewport_offset(5, 3, 10), 8);
    assert_eq!(wheel_viewport_offset(5, 30, 10), 10);
    assert_eq!(wheel_viewport_offset(5, -30, 10), 0);
    assert_eq!(wheel_viewport_offset(0, -1, 0), 0);
    assert_eq!(autoscroll_offset(Autoscroll::Up, 3, 10), 4);
    assert_eq!(autoscroll_offset(Autoscroll::Up, 10, 10), 10);
    assert_eq!(autoscroll_offset(Autoscroll::Down, 3, 10), 2);
    assert_eq!(autoscroll_offset(Autoscroll::Down, 0, 10), 0);
    assert_eq!(autoscroll_offset(Autoscroll::Idle, 7, 10), 7);
    // An Up tick below the top is undone by a Down tick.
    assert_eq!(autoscroll_offset(Autoscroll::Down, autoscroll_offset(Autoscroll::Up, 9, 10), 10), 9);
}

#[test]
fn selection_autoscroll_runs_only_for_a_held_parked_drag() {
    assert_eq!(selection_autoscroll_step(true, false, true, Autoscroll::Up, 2, 5), Some(3));
    assert_eq!(selection_autoscroll_step(true, false, true, Autoscroll::Down, 2, 5), Some(1));
    assert_eq!(selection_autoscroll_step(true, false, true, Autoscroll::Idle, 2, 5), None);
    assert_eq!(selection_autoscroll_step(false, false, true, Autoscroll::Up, 2, 5), None);
    assert_eq!(selection_autoscroll_step(true, true, true, Autoscroll::Up, 2, 5), None);
    assert_eq!(selection_autoscroll_step(true, false, false, Autoscroll::Up, 2, 5), None);
}

fn leaf(cwd: Option<&str>) -> SessionNode {
    SessionNode::Leaf { cwd: cwd.map(|c| c.to_string()) }
}

fn split(axis: SessionAxis, first: SessionNode, second: SessionNode) -> SessionNode {
    SessionNode::Split { axis, first: Box::new(first), second: Box::new(second) }
}

#[test]
fn session_restore_rebuilds_every_split() {
    // (a | (b / c))
    let tree = split(
        SessionAxis::Horizontal,
        leaf(Some("/a")),
        split(SessionAxis::Vertical, leaf(Some("/b")), leaf(None)),
    );
    assert_eq!(leftmost_cwd(&tree), Some("/a".to_string()));
    let plan = session_restore_plan(&tree);
    assert_eq!(plan.len(), 2);
    assert_eq!((plan[0].anchor, plan[0].new_pane, plan[0].direction), (0, 1, SplitDirection::Right));
    assert_eq!(plan[0].cwd, Some("/b".to_string()));
    assert_eq!((plan[1].anchor, plan[1].new_pane, plan[1].direction), (1, 2, SplitDirection::Down));
    assert_eq!(plan[1].cwd, None);
    assert!(session_restore_plan(&leaf(Some("/x"))).is_empty());
    assert_eq!(restore_direction(SessionAxis::Horizontal), SplitDirection::Right);
    assert_eq!(restore_direction(SessionAxis::Vertical), SplitDirection::Down);
}

#[test]
fn session_restore_numbers_panes_in_spawn_order() {
    // ((a / b) | (c | d)): four panes, three splits.
    let tree = split(
        SessionAxis::Horizontal,
        split(SessionAxis::Vertical, leaf(Some("/a")), leaf(Some("/b"))),
        split(SessionAxis::Horizontal, leaf(Some("/c")), leaf(Some("/d"))),
    );
    let plan = session_restore_plan(&tree);
    let shape: Vec<(usize, usize)> = plan.iter().map(|s| (s.anchor, s.new_pane)).collect();
    assert_eq!(shape, vec![(0, 1), (0, 2), (1, 3)]);
    for (i, step) in plan.iter().enumerate() {
        assert_eq!(step.new_pane, i + 1);
        assert!(step.anchor < step.new_pane);
    }
    assert_eq!(plan[0].cwd, Some("/c".to_string()));
    assert_eq!(plan[1].cwd, Some("/b".to_string()));
    assert_eq!(plan[2].cwd, Some("/d".to_string()));
}

#[test]
fn background_lightness_uses_perceived_luminance() {
    assert!(background_is_light((255, 255, 255)));
    assert!(!background_is_light((0, 0, 0)));
    assert!(!background_is_light((0x18, 0x18, 0x18)));
    assert!(background_is_light((0xee, 0xee, 0xee)));
    // Exactly half: not light.
    assert!(!background_is_light((218, 58, 248)));
    assert!(background_is_light((0, 255, 0)));
    assert!(!background_is_light((0, 0, 255)));
}

#[test]
fn window_theme_picks_the_appearance() {
    assert_eq!(window_appearance(WindowTheme::Light, (0, 0, 0)), Some(Appearance::Aqua));
    assert_eq!(window_appearance(WindowTheme::Dark, (255, 255, 255)), Some(Appearance::DarkAqua));
    assert_eq!(window_appearance(WindowTheme::Auto, (255, 255, 255)), Some(Appearance::Aqua));
    assert_eq!(window_appearance(WindowTheme::Auto, (0x18, 0x18, 0x18)), Some(Appearance::DarkAqua));
    assert_eq!(window_appearance(WindowTheme::System, (0, 0, 0)), None);
    assert_eq!(window_appearance(WindowTheme::Ghostty, (0, 0, 0)), None);
    assert_eq!(default_background(None), (0x18, 0x18, 0x18));
    assert_eq!(default_background(Some((1, 2, 3))), (1, 2, 3));
}

#[test]
fn tab_bar_and_save_state_settings_map_to_appkit() {
    assert_eq!(tabbing_mode(WindowShowTabBar::Auto), TabbingMode::Automatic);
    assert_eq!(tabbing_mode(WindowShowTabBar::Always), TabbingMode::Preferred);
    assert_eq!(tabbing_mode(WindowShowTabBar::Never), TabbingMode::Disallowed);
    assert_eq!(apply_window_save_state_default(WindowSaveState::Never), KeepWindowsDefault::SetTo(false));
    assert_eq!(apply_window_save_state_default(WindowSaveState::Always), KeepWindowsDefault::SetTo(true));
    assert_eq!(apply_window_save_state_default(WindowSaveState::Default), KeepWindowsDefault::Remove);
    assert!(!window_restorable(WindowSaveState::Never));
    assert!(window_restorable(WindowSaveState::Default));
    assert!(window_restorable(WindowSaveState::Always));
}

#[test]
fn render_pacing_prefers_a_display_link() {
    let mut d = AppDelegate::new();
    assert!(d.start_render_pacing(false, Some(true)));
    assert_eq!(d, AppDelegate { display_link: true, pace_timer: false, service_timer: true });

    let mut smoke = AppDelegate::new();
    assert!(!smoke.start_render_pacing(true, Some(true)));
    assert_eq!(smoke, AppDelegate { display_link: false, pace_timer: true, service_timer: false });

    let mut no_window = AppDelegate::new();
    assert!(!no_window.start_render_pacing(false, None));
    assert!(no_window.pace_timer && !no_window.display_link);
}

#[test]
fn start_display_link_binds_only_to_a_window_with_a_view() {
    let mut d = AppDelegate::new();
    assert!(!d.start_display_link(None));
    assert!(!d.display_link);
    assert!(!d.start_display_link(Some(false)));
    assert!(!d.display_link);
    assert!(d.start_display_link(Some(true)));
    assert!(d.display_link);
    assert!(d.bind_display_link(true));
    assert!(!d.bind_display_link(false));
    assert!(d.display_link);
}

#[test]
fn rebind_falls_back_to_the_pace_timer_so_rendering_never_stalls() {
    let mut d = AppDelegate::new();
    assert_eq!(d.rebind_display_link(Some(true)), Rebind::NoLink);
    assert_eq!(d, AppDelegate::new());

    d.start_display_link(Some(true));
    assert_eq!(d.rebind_display_link(Some(true)), Rebind::Rebound);
    assert!(d.display_link && !d.pace_timer);

    assert_eq!(d.rebind_display_link(None), Rebind::FellBackToPaceTimer);
    assert!(!d.display_link && d.pace_timer);
    assert_eq!(d.rebind_display_link(Some(true)), Rebind::NoLink);

    let mut e = AppDelegate::new();
    e.start_display_link(Some(true));
    assert_eq!(e.rebind_display_link(Some(false)), Rebind::FellBackToPaceTimer);
    assert!(e.pace_timer);
}

#[test]
fn quick_terminal_builds_then_toggles() {
    let mut q = QuickTerminal::new();
    assert_eq!(q.toggle_quick_terminal(true), QuickTerminalStep::Build);
    assert!(!q.quick_terminal_built(false));
    assert_eq!(q, QuickTerminal::new());
    assert!(q.quick_terminal_built(true));
    assert!(q.animate_quick_terminal(true, true, true));
    assert!(q.quick_terminal_visible());
    // Idempotent: already shown.
    assert!(!q.animate_quick_terminal(true, true, true));
    assert_eq!(q.toggle_quick_terminal(true), QuickTerminalStep::Hide);
    assert!(q.animate_quick_terminal(false, true, true));
    assert_eq!(q.toggle_quick_terminal(true), QuickTerminalStep::Show);
    assert!(!q.animate_quick_terminal(true, true, false));
    assert!(!q.quick_terminal_visible());
}

#[test]
fn quick_terminal_with_an_exited_shell_is_rebuilt() {
    let mut q = QuickTerminal { exists: true, visible: true };
    assert_eq!(q.toggle_quick_terminal(false), QuickTerminalStep::Build);
    assert_eq!(q, QuickTerminal { exists: false, visible: false });
}

#[test]
fn quick_terminal_toggled_twice_is_back_where_it_was() {
    for visible in [false, true] {
        let start = QuickTerminal { exists: true, visible };
        let mut q = start;
        for _ in 0..2 {
            let step = q.toggle_quick_terminal(true);
            let show = step == QuickTerminalStep::Show;
            assert!(q.animate_quick_terminal(show, true, true));
        }
        assert_eq!(q, start);
    }
}

#[test]
fn quick_terminal_autohides_only_when_visible() {
    let q = QuickTerminal { exists: true, visible: true };
    assert!(q.quick_terminal_autohide_on_resign(true));
    assert!(!q.quick_terminal_autohide_on_resign(false));
    let hidden = QuickTerminal { exists: true, visible: false };
    assert!(!hidden.quick_terminal_autohide_on_resign(true));
}

#[test]
fn close_confirmation_follows_the_setting() {
    let running = CloseProbe { dead: false, at_prompt: false };
    let idle = CloseProbe { dead: false, at_prompt: true };
    let dead = CloseProbe { dead: true, at_prompt: false };
    assert!(surface_needs_confirm_close(ConfirmCloseSurface::OnRunning, Some(running)));
    assert!(!surface_needs_confirm_close(ConfirmCloseSurface::OnRunning, Some(idle)));
    assert!(surface_needs_confirm_close(ConfirmCloseSurface::Always, Some(idle)));
    assert!(!surface_needs_confirm_close(ConfirmCloseSurface::Never, Some(running)));
    assert!(!surface_needs_confirm_close(ConfirmCloseSurface::Always, Some(dead)));
    assert!(!surface_needs_confirm_close(ConfirmCloseSurface::Always, None));
    assert!(tab_needs_confirm_close(ConfirmCloseSurface::OnRunning, &vec![idle, running]));
    assert!(!tab_needs_confirm_close(ConfirmCloseSurface::OnRunning, &vec![idle, dead]));
    assert!(!tab_needs_confirm_close(ConfirmCloseSurface::Always, &vec![]));
    // A tab of only dead panes, or `never`, closes without asking.
    assert!(!tab_needs_confirm_close(ConfirmCloseSurface::Always, &vec![dead, dead]));
    assert!(!tab_needs_confirm_close(ConfirmCloseSurface::Never, &vec![running, idle]));
}

#[test]
fn closing_a_pane_moves_focus_or_closes_the_tab() {
    assert_eq!(close_surface_plan(true, Some(2), 1, 1), SurfaceClose::KillTmuxPane);
    assert_eq!(close_surface_plan(false, None, 1, 1), SurfaceClose::CloseTab);
    assert_eq!(
        close_surface_plan(false, Some(2), 1, 1),
        SurfaceClose::Refocus { focus: 2, focus_in: true }
    );
    // Closing an unfocused pane leaves focus put: no focus-in.
    assert_eq!(
        close_surface_plan(false, Some(3), 3, 1),
        SurfaceClose::Refocus { focus: 3, focus_in: false }
    );
}

#[test]
fn resize_overlay_waits_out_the_startup_storm() {
    assert!(resize_overlay_shows(ResizeOverlayMode::Always, 0, true));
    assert!(!resize_overlay_shows(ResizeOverlayMode::Always, 0, false));
    assert!(!resize_overlay_shows(ResizeOverlayMode::Never, 10_000_000_000, true));
    assert!(!resize_overlay_shows(ResizeOverlayMode::AfterFirst, 499_999_999, true));
    assert!(resize_overlay_shows(ResizeOverlayMode::AfterFirst, 500_000_000, true));
}

#[test]
fn resize_overlay_hides_once_at_its_deadline() {
    let mut o = ResizeOverlay::new();
    assert!(!o.is_shown(0));
    assert!(!o.tick(5));
    o.show(1_000, 750);
    assert!(o.is_shown(1_000));
    assert!(!o.tick(1_749));
    assert!(o.is_shown(1_749));
    // Past the deadline it no longer counts as shown, even before a tick.
    assert!(!o.is_shown(1_750));
    assert!(o.tick(1_750));
    assert!(!o.is_shown(1_750));
    assert!(!o.tick(2_000));
    // Re-showing re-arms the deadline.
    o.show(2_000, 10);
    assert_eq!(o.deadline, Some(2_010));
    assert!(o.is_shown(2_009));
}

#[test]
fn tab_actions_resolve_against_the_visual_tab_order() {
    let group = vec![30u64, 10, 20];
    assert_eq!(tab_action_target(&group, 10, TabAction::NextTab), Some(2));
    assert_eq!(tab_action_target(&group, 30, TabAction::PreviousTab), Some(2));
    assert_eq!(tab_action_target(&group, 20, TabAction::GotoTab(1)), Some(0));
    // A selection outside the group counts as the first tab.
    assert_eq!(tab_action_target(&group, 99, TabAction::NextTab), Some(1));
    assert_eq!(tab_action_target(&vec![], 1, TabAction::NextTab), None);
    assert_eq!(tab_action_target(&vec![5], 5, TabAction::PreviousTab), Some(0));
}

use vstd::prelude::*;
use crate::session::SplitDirection;

verus! {

/// What to do with the raw `tmux -CC` control tab after a reconcile.
#[derive(Clone, Copy, Debug, PartialEq, Eq, Structural)]
pub enum ControlTabVisibility {
    /// At least one tmux-window tab exists: keep the control tab hidden.
    Hide,
    /// The last tmux-window tab just went away: show the control tab again
    /// and detach the `tmux -CC` client so it does not linger.
    RestoreAndDetach,
    /// No tmux-window tab was ever created: just make sure it is shown.
    Restore,
}

/// The control tab's visibility after a reconcile, from the session's window
/// map: `None` when the session has no map entry yet, `Some(populated)`
/// otherwise. While any tmux window is mirrored the user sees only those
/// tabs; the moment the last one is removed the control tab comes back, so
/// the window group never sits with no visible surface.
pub fn control_tab_visibility(map_populated: Option<bool>) -> (r: ControlTabVisibility)
    ensures
        r == (match map_populated {
            Some(true) => ControlTabVisibility::Hide,
            Some(false) => ControlTabVisibility::RestoreAndDetach,
            None => ControlTabVisibility::Restore,
        }),
{
    match map_populated {
        Some(true) => ControlTabVisibility::Hide,
        Some(false) => ControlTabVisibility::RestoreAndDetach,
        None => ControlTabVisibility::Restore,
    }
}

/// How a window close request is handled.
#[derive(Clone, Copy, Debug, PartialEq, Eq, Structural)]
pub enum WindowClose {
    /// A tmux-window tab: send `kill-window` for this tmux window id and veto
    /// the native close (the reconcile removes the tab).
    KillTmuxWindow(usize),
    /// A tmux-managed tab that could not be resolved to a window id: veto.
    Veto,
    /// An ordinary tab: tear down the tmux session it hosts (if any), then
    /// ask for confirmation when a process is running.
    Confirm { teardown_control: bool },
}

/// Decide a window's `windowShouldClose:`. `tmux_window` is the tmux window
/// id the tab mirrors (if it is a tmux-window tab), `tmux_managed` whether
/// any of its panes is a tmux display pane, `hosts_control` whether it hosts
/// a live `tmux -CC` control surface.
pub fn window_should_close(tmux_window: Option<usize>, tmux_managed: bool, hosts_control: bool) -> (r: WindowClose)
    ensures
        r == (match tmux_window {
            Some(w) => WindowClose::KillTmuxWindow(w),
            None => if tmux_managed {
                WindowClose::Veto
            } else {
                WindowClose::Confirm { teardown_control: hosts_control }
            },
        }),
{
    match tmux_window {
        Some(w) => WindowClose::KillTmuxWindow(w),
        None => if tmux_managed {
            WindowClose::Veto
        } else {
            WindowClose::Confirm { teardown_control: hosts_control }
        },
    }
}

/// How a tab close (Close Tab menu item / `close_tab` keybind) is handled.
#[derive(Clone, Copy, Debug, PartialEq, Eq, Structural)]
pub enum TabClose {
    /// Send `kill-window` for this tmux window id; the reconcile removes the tab.
    KillTmuxWindow(usize),
    /// A tmux-managed tab without a window id: do nothing.
    Ignore,
    /// Close the focused pane (confirming if a process runs); the last pane's
    /// close closes the tab.
    CloseFocusedPane,
}

/// Decide a tab close: tmux owns a tmux-window tab's layout, so its close
/// becomes `kill-window`; an unresolvable tmux-managed tab is left alone; an
/// ordinary tab closes its focused pane.
pub fn close_tab_confirmed(tmux_window: Option<usize>, tmux_managed: bool) -> (r: TabClose)
    ensures
        r == (match tmux_window {
            Some(w) => TabClose::KillTmuxWindow(w),
            None => if tmux_managed { TabClose::Ignore } else { TabClose::CloseFocusedPane },
        }),
{
    match tmux_window {
        Some(w) => TabClose::KillTmuxWindow(w),
        None => if tmux_managed { TabClose::Ignore } else { TabClose::CloseFocusedPane },
    }
}

/// The `split-window` flags for a native split direction: `-h` (side by
/// side) for left/right, `-b` (new pane first) for left/up.
pub fn tmux_split_flags(direction: SplitDirection) -> (r: (bool, bool))
    ensures
        r.0 == (direction == SplitDirection::Right || direction == SplitDirection::Left),
        r.1 == (direction == SplitDirection::Left || direction == SplitDirection::Up),
{
    match direction {
        SplitDirection::Right => (true, false),
        SplitDirection::Left => (true, true),
        SplitDirection::Down => (false, false),
        SplitDirection::Up => (false, true),
    }
}

/// The next surface id a tmux-window tab mints: one past the largest pane id
/// in its tree, or 0 for an empty tree.
pub open spec fn spec_next_surface(ids: Seq<u64>) -> int
    decreases ids.len(),
{
    if ids.len() == 0 {
        0
    } else {
        let rest = spec_next_surface(ids.drop_last());
        if ids.last() + 1 > rest { ids.last() + 1 } else { rest }
    }
}

/// One past the largest id in `ids` (0 when empty): the first surface id no
/// pane of a freshly mirrored tmux window uses.
pub fn next_surface_id(ids: &Vec<u64>) -> (r: u64)
    requires
        forall|i: int| 0 <= i < ids@.len() ==> ids@[i] < u64::MAX,
    ensures
        r == spec_next_surface(ids@),
        forall|i: int| 0 <= i < ids@.len() ==> ids@[i] < r,
{
    let mut next: u64 = 0;
    let mut i: usize = 0;
    while i < ids.len()
        invariant
            i <= ids@.len(),
            forall|j: int| 0 <= j < ids@.len() ==> ids@[j] < u64::MAX,
            next == spec_next_surface(ids@.take(i as int)),
            forall|j: int| 0 <= j < i ==> ids@[j] < next,
        decreases ids@.len() - i,
    {
        assert(ids@.take(i + 1).drop_last() =~= ids@.take(i as int));
        if ids[i] + 1 > next {
            next = ids[i] + 1;
        }
        i = i + 1;
    }
    assert(ids@.take(ids@.len() as int) =~= ids@);
    next
}

/// Whether `x` occurs in `v`.
fn contains_id(v: &Vec<u64>, x: u64) -> (r: bool)
    ensures
        r == v@.contains(x),
{
    let mut i: usize = 0;
    while i < v.len()
        invariant
            i <= v@.len(),
            forall|j: int| 0 <= j < i ==> v@[j] != x,
        decreases v@.len() - i,
    {
        if v[i] == x {
            return true;
        }
        i = i + 1;
    }
    false
}

/// The ids of `a` that are not in `b`, each once.
fn ids_missing_from(a: &Vec<u64>, b: &Vec<u64>) -> (r: Vec<u64>)
    ensures
        forall|x: u64| r@.contains(x) <==> (a@.contains(x) && !b@.contains(x)),
        r@.no_duplicates(),
{
    let mut r: Vec<u64> = Vec::new();
    let mut i: usize = 0;
    while i < a.len()
        invariant
            i <= a@.len(),
            forall|x: u64| r@.contains(x) <==> (a@.take(i as int).contains(x) && !b@.contains(x)),
            r@.no_duplicates(),
        decreases a@.len() - i,
    {
        let x = a[i];
        let ghost prefix = a@.take(i as int);
        let ghost old_r = r@;
        assert(a@.take(i + 1) =~= prefix.push(x));
        assert forall|y: u64| prefix.push(x).contains(y) <==> (prefix.contains(y) || y == x) by {
            if prefix.push(x).contains(y) {
                let k = choose|k: int| 0 <= k < prefix.push(x).len() && prefix.push(x)[k] == y;
                if k < prefix.len() {
                    assert(prefix[k] == y);
                }
            }
            if y == x {
                assert(prefix.push(x)[prefix.len() as int] == x);
            }
            if prefix.contains(y) {
                let k = choose|k: int| 0 <= k < prefix.len() && prefix[k] == y;
                assert(prefix.push(x)[k] == y);
            }
        }
        if !contains_id(b, x) && !contains_id(&r, x) {
            r.push(x);
            assert forall|y: u64| r@.contains(y) <==> (old_r.contains(y) || y == x) by {
                if r@.contains(y) {
                    let k = choose|k: int| 0 <= k < r@.len() && r@[k] == y;
                    if k < old_r.len() {
                        assert(old_r[k] == y);
                    }
                }
                if y == x {
                    assert(r@[old_r.len() as int] == x);
                }
                if old_r.contains(y) {
                    let k = choose|k: int| 0 <= k < old_r.len() && old_r[k] == y;
                    assert(r@[k] == y);
                }
            }
        }
        assert forall|y: u64| r@.contains(y) <==> (a@.take(i + 1).contains(y) && !b@.contains(y)) by {
            assert(old_r.contains(y) <==> (prefix.contains(y) && !b@.contains(y)));
        }
        i = i + 1;
    }
    assert(a@.take(a@.len() as int) =~= a@);
    r
}

/// How a tmux window's new pane tree changes its native tab.
pub struct TmuxTabDiff {
    /// Panes that appeared: build a display surface for each.
    pub to_add: Vec<u64>,
    /// Panes that vanished: drop their surfaces.
    pub to_remove: Vec<u64>,
    /// Whether the pane holding focus is among the removed ones (focus then
    /// moves to the new tree's focused pane).
    pub focus_removed: bool,
}

/// Diff a tmux-window tab's current pane surfaces (`present`) against the
/// panes of the window's new layout (`wanted`): which surfaces to add and
/// remove (each once), and whether the focused pane goes away. Surviving
/// panes keep their surfaces.
pub fn update_tmux_tab(present: &Vec<u64>, wanted: &Vec<u64>, focused: u64) -> (r: TmuxTabDiff)
    ensures
        forall|x: u64| r.to_add@.contains(x) <==> (wanted@.contains(x) && !present@.contains(x)),
        forall|x: u64| r.to_remove@.contains(x) <==> (present@.contains(x) && !wanted@.contains(x)),
        r.to_add@.no_duplicates(),
        r.to_remove@.no_duplicates(),
        r.focus_removed == !wanted@.contains(focused),
{
    TmuxTabDiff {
        to_add: ids_missing_from(wanted, present),
        to_remove: ids_missing_from(present, wanted),
        focus_removed: !contains_id(wanted, focused),
    }
}

/// A mouse action.
#[derive(Clone, Copy, Debug, PartialEq, Eq, Structural)]
pub enum MouseAction {
    Press,
    Motion,
    Release,
}

/// A point in a pane's visible window: a cell at a scrollback offset.
#[derive(Clone, Copy, Debug, PartialEq, Eq, Structural)]
pub struct PanePoint {
    pub col: usize,
    pub row: usize,
    pub scrollback_offset: usize,
}

/// The selection-gesture state of a display-only tmux pane: the drag anchor
/// (where the left button went down) and whether a button is held.
#[derive(Clone, Copy, Debug, PartialEq, Eq, Structural)]
pub struct PaneSelection {
    pub anchor: Option<PanePoint>,
    pub button_down: bool,
}

/// What a mouse event on a display-only tmux pane does.
#[derive(Clone, Copy, Debug, PartialEq, Eq, Structural)]
pub enum PaneMouseOp {
    /// The pane's program tracks the mouse: encode and send the event to it,
    /// and clear any local selection.
    Report,
    /// Consumed with no effect.
    Ignore,
    /// A press: clear the pane terminal's selection.
    Clear,
    /// A drag: select from `anchor` to `current` (rectangular with option).
    Extend { anchor: PanePoint, current: PanePoint, rectangle: bool },
    /// A release: copy the selection if copy-on-select is on.
    Release,
}

/// The selection step for one mouse event on a display-only tmux pane, and
/// the gesture state after it. `pressed` (if any) is the new button state;
/// `reporting` whether the pane's program tracks the mouse and shift is not
/// held; `left` whether the left button is involved; `cur` the event's cell.
pub open spec fn spec_pane_mouse_step(
    s: PaneSelection,
    pressed: Option<bool>,
    reporting: bool,
    left: bool,
    action: MouseAction,
    cur: PanePoint,
    alt: bool,
) -> (PaneSelection, PaneMouseOp) {
    let down = match pressed { Some(p) => p, None => s.button_down };
    let s1 = PaneSelection { button_down: down, ..s };
    if reporting {
        (PaneSelection { anchor: None, ..s1 }, PaneMouseOp::Report)
    } else if !left {
        (s1, PaneMouseOp::Ignore)
    } else {
        match action {
            MouseAction::Press => (PaneSelection { anchor: Some(cur), ..s1 }, PaneMouseOp::Clear),
            MouseAction::Motion => if !down {
                (s1, PaneMouseOp::Ignore)
            } else {
                match s1.anchor {
                    Some(a) => (s1, PaneMouseOp::Extend { anchor: a, current: cur, rectangle: alt }),
                    None => (s1, PaneMouseOp::Ignore),
                }
            },
            MouseAction::Release => (PaneSelection { anchor: None, ..s1 }, PaneMouseOp::Release),
        }
    }
}

impl PaneSelection {
    /// No drag in progress, no button held.
    pub fn new() -> (r: PaneSelection)
        ensures
            r.anchor is None,
            !r.button_down,
    {
        PaneSelection { anchor: None, button_down: false }
    }

    /// Handle a mouse event on a pane, if it is a display-only tmux pane
    /// (`display_pane`). For any other pane (or none) the event is not handled
    /// here: `None`, and nothing changes, so the caller runs its normal mouse
    /// path. On a display pane: when the pane's program tracks the mouse the
    /// event is reported to it; otherwise the left button drives a linear
    /// (or, with option, rectangular) selection anchored at the press,
    /// extended on drags while the button is held and ended on release.
    pub fn tmux_pane_mouse(
        &mut self,
        display_pane: bool,
        pressed: Option<bool>,
        reporting: bool,
        left: bool,
        action: MouseAction,
        cur: PanePoint,
        alt: bool,
    ) -> (r: Option<PaneMouseOp>)
        ensures
            !display_pane ==> r is None && *final(self) == *old(self),
            display_pane ==> r is Some && (*final(self), r->Some_0) == spec_pane_mouse_step(
                *old(self),
                pressed,
                reporting,
                left,
                action,
                cur,
                alt,
            ),
    {
        if !display_pane {
            return None;
        }
        if let Some(p) = pressed {
            self.button_down = p;
        }
        if reporting {
            self.anchor = None;
            return Some(PaneMouseOp::Report);
        }
        if !left {
            return Some(PaneMouseOp::Ignore);
        }
        match action {
            MouseAction::Press => {
                self.anchor = Some(cur);
                Some(PaneMouseOp::Clear)
            },
            MouseAction::Motion => {
                if !self.button_down {
                    return Some(PaneMouseOp::Ignore);
                }
                match self.anchor {
                    Some(a) => Some(PaneMouseOp::Extend { anchor: a, current: cur, rectangle: alt }),
                    None => Some(PaneMouseOp::Ignore),
                }
            },
            MouseAction::Release => {
                self.anchor = None;
                Some(PaneMouseOp::Release)
            },
        }
    }
}

/// A left-button press, drag and release on a display pane selects from the
/// press point to the drag point, and the release ends the drag (no anchor
/// remains for a later stray motion).
pub proof fn lemma_press_drag_release(
    s: PaneSelection,
    p: PanePoint,
    q: PanePoint,
    alt: bool,
)
    ensures
        ({
            let (s1, op1) = spec_pane_mouse_step(s, Some(true), false, true, MouseAction::Press, p, alt);
            let (s2, op2) = spec_pane_mouse_step(s1, None, false, true, MouseAction::Motion, q, alt);
            let (s3, op3) = spec_pane_mouse_step(s2, Some(false), false, true, MouseAction::Release, q, alt);
            let (s4, op4) = spec_pane_mouse_step(s3, None, false, true, MouseAction::Motion, q, alt);
            &&& op1 == PaneMouseOp::Clear
            &&& op2 == (PaneMouseOp::Extend { anchor: p, current: q, rectangle: alt })
            &&& op3 == PaneMouseOp::Release
            &&& op4 == PaneMouseOp::Ignore
            &&& s4.anchor is None
        }),
{
}

} // verus!

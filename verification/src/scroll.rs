use vstd::prelude::*;
use crate::keys::{arrow_key_bytes, spec_arrow_key_bytes};

verus! {

/// The scrollback offset (rows up from the live bottom) that puts absolute
/// screen row `row` at the top of the viewport: `scrollback_len - row`,
/// clamped to `[0, scrollback_len]`.
pub open spec fn spec_match_offset(scrollback_len: int, row: int) -> int {
    if row <= scrollback_len { scrollback_len - row } else { 0 }
}

/// The scrollback offset that scrolls a search match whose top-left sits on
/// absolute screen row `row` into view (the match row at the top of the
/// viewport), never past the top of history nor below the live area.
pub fn scroll_match_into_view(scrollback_len: usize, row: usize) -> (r: usize)
    ensures
        r == spec_match_offset(scrollback_len as int, row as int),
        r <= scrollback_len,
{
    if row <= scrollback_len {
        scrollback_len - row
    } else {
        0
    }
}

/// `x` clamped into `[lo, hi]` (`lo <= hi`).
pub open spec fn clamp(x: int, lo: int, hi: int) -> int {
    if x < lo { lo } else if x > hi { hi } else { x }
}

/// Move the scrollback viewport by a wheel delta: `rows_up` rows into
/// history (negative: back toward the live area), clamped to the
/// scrollback length `max`.
pub fn wheel_viewport_offset(current: usize, rows_up: isize, max: usize) -> (r: usize)
    requires
        current <= isize::MAX,
        max <= isize::MAX,
    ensures
        r == clamp(current + rows_up, 0, max as int),
        r <= max,
{
    let next: i128 = current as i128 + rows_up as i128;
    if next < 0 {
        0
    } else if next > max as i128 {
        max
    } else {
        next as usize
    }
}

/// Which way a parked selection drag scrolls the viewport.
#[derive(Clone, Copy, Debug, PartialEq, Eq, Structural)]
pub enum Autoscroll {
    Idle,
    Up,
    Down,
}

/// One selection-autoscroll tick's effect on the scrollback offset: `Up`
/// scrolls one row into history (at most to `max`), `Down` one row toward the
/// live area (at least to 0), `Idle` leaves it.
pub open spec fn spec_autoscroll_offset(dir: Autoscroll, current: int, max: int) -> int {
    match dir {
        Autoscroll::Idle => current,
        Autoscroll::Up => if current + 1 <= max { current + 1 } else { max },
        Autoscroll::Down => if current >= 1 { current - 1 } else { 0 },
    }
}

/// The scrollback offset after one autoscroll tick while a drag is parked
/// past the pane's top (`Up`) or bottom (`Down`) edge.
pub fn autoscroll_offset(dir: Autoscroll, current: usize, max: usize) -> (r: usize)
    ensures
        r == spec_autoscroll_offset(dir, current as int, max as int),
{
    match dir {
        Autoscroll::Idle => current,
        Autoscroll::Up => if current < max { current + 1 } else { max },
        Autoscroll::Down => if current >= 1 { current - 1 } else { 0 },
    }
}

/// One selection-autoscroll tick of a pane: runs only while the button is
/// held on a live pane with a drag parked past an edge (`dir` not `Idle`);
/// then the viewport moves one row and the caller continues the drag at the
/// parked pointer. Returns the new offset when the tick runs.
pub fn selection_autoscroll_step(
    button_down: bool,
    dead: bool,
    has_drag: bool,
    dir: Autoscroll,
    current: usize,
    max: usize,
) -> (r: Option<usize>)
    ensures
        r == (if button_down && !dead && has_drag && dir != Autoscroll::Idle {
            Some(spec_autoscroll_offset(dir, current as int, max as int) as usize)
        } else {
            None
        }),
{
    if !button_down || dead || !has_drag {
        return None;
    }
    match dir {
        Autoscroll::Idle => None,
        _ => Some(autoscroll_offset(dir, current, max)),
    }
}

/// What the wheel decision made of one wheel event (its row delta already
/// taken against the pane's modes).
#[derive(Clone, Copy, Debug, PartialEq, Eq, Structural)]
pub enum WheelOutcome {
    /// Nothing to do (no whole row of movement).
    Nothing,
    /// Alternate scroll: send `count` cursor-up (`up`) or cursor-down keys.
    AltScrollKeys { count: usize, up: bool },
    /// Mouse reporting: send `count` wheel-button reports.
    Report { count: usize, up: bool },
    /// Move the scrollback viewport `rows_up` rows into history (negative:
    /// toward the live area).
    Viewport { rows_up: isize },
}

/// What applying a wheel outcome to a pane does.
pub struct WheelEffect {
    /// The pane's scrollback offset afterwards.
    pub offset: usize,
    /// Clear the selection and reset the click sequence (the program gets the
    /// wheel).
    pub reset_selection: bool,
    /// The writes to the pty, in order.
    pub pty_writes: Vec<Vec<u8>>,
    /// How many wheel-button reports to send, and which button.
    pub reports: usize,
    pub report_up: bool,
}

/// The scrollback offset after a wheel outcome: only a viewport move changes
/// it, clamped to `[0, max]`. A display-only tmux pane only ever moves its
/// viewport (it has no pty to send keys or reports to).
pub open spec fn spec_wheel_offset(outcome: WheelOutcome, current: int, max: int) -> int {
    match outcome {
        WheelOutcome::Viewport { rows_up } => clamp(current + rows_up, 0, max),
        _ => current,
    }
}

/// Apply a wheel outcome to a pane whose scrollback offset is `current` and
/// history length `max` (a display pane: its pane terminal's). Alternate
/// scroll writes `count` arrow keys (in the pane's cursor-key mode), mouse
/// reporting sends `count` wheel reports, both after dropping the local
/// selection; a viewport move clamps the offset. A display pane acts only on
/// viewport moves.
pub fn apply_wheel_outcome(
    outcome: WheelOutcome,
    display_pane: bool,
    current: usize,
    max: usize,
    cursor_key_application: bool,
) -> (r: WheelEffect)
    requires
        current <= isize::MAX,
        max <= isize::MAX,
    ensures
        r.offset == spec_wheel_offset(outcome, current as int, max as int),
        r.reset_selection == (!display_pane && (outcome is AltScrollKeys || outcome is Report)),
        r.pty_writes@.len() == (match outcome {
            WheelOutcome::AltScrollKeys { count, .. } => if display_pane { 0 } else { count as int },
            _ => 0,
        }),
        forall|i: int| 0 <= i < r.pty_writes@.len() ==> #[trigger] r.pty_writes@[i]@ == spec_arrow_key_bytes(
            outcome->AltScrollKeys_up,
            cursor_key_application,
        ),
        r.reports == (match outcome {
            WheelOutcome::Report { count, .. } => if display_pane { 0 } else { count },
            _ => 0,
        }),
        r.report_up == (match outcome {
            WheelOutcome::Report { up, .. } => !display_pane && up,
            _ => false,
        }),
{
    let mut effect = WheelEffect {
        offset: current,
        reset_selection: false,
        pty_writes: Vec::new(),
        reports: 0,
        report_up: false,
    };
    match outcome {
        WheelOutcome::Nothing => {},
        WheelOutcome::AltScrollKeys { count, up } => {
            if !display_pane {
                effect.reset_selection = true;
                let mut writes: Vec<Vec<u8>> = Vec::new();
                let mut i: usize = 0;
                while i < count
                    invariant
                        i <= count,
                        writes@.len() == i,
                        forall|j: int| 0 <= j < i ==> #[trigger] writes@[j]@ == spec_arrow_key_bytes(up, cursor_key_application),
                    decreases count - i,
                {
                    writes.push(arrow_key_bytes(up, cursor_key_application));
                    i = i + 1;
                }
                effect.pty_writes = writes;
            }
        },
        WheelOutcome::Report { count, up } => {
            if !display_pane {
                effect.reset_selection = true;
                effect.reports = count;
                effect.report_up = up;
            }
        },
        WheelOutcome::Viewport { rows_up } => {
            effect.offset = wheel_viewport_offset(current, rows_up, max);
        },
    }
    effect
}

/// A wheel event never moves the viewport out of `[0, max]` (starting inside
/// it), and only a viewport move changes the offset at all.
pub proof fn lemma_wheel_keeps_offset_in_range(outcome: WheelOutcome, current: int, max: int)
    requires
        0 <= current <= max,
    ensures
        0 <= spec_wheel_offset(outcome, current, max) <= max,
        !(outcome is Viewport) ==> spec_wheel_offset(outcome, current, max) == current,
{
}

/// The viewport never leaves `[0, max]` under autoscroll or wheel moves
/// (starting inside it), and an `Up` tick away from the top of history is
/// undone by a `Down` tick.
pub proof fn lemma_viewport_stays_in_range(current: int, rows_up: int, max: int, dir: Autoscroll)
    requires
        0 <= current <= max,
    ensures
        0 <= spec_autoscroll_offset(dir, current, max) <= max,
        0 <= clamp(current + rows_up, 0, max) <= max,
        current < max ==> spec_autoscroll_offset(
            Autoscroll::Down,
            spec_autoscroll_offset(Autoscroll::Up, current, max),
            max,
        ) == current,
{
}

} // verus!

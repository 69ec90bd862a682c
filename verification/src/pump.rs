use vstd::prelude::*;
use crate::tick::{spec_pane_tick, PaneReport, PaneStatus, TickSettings};

verus! {

/// A shell-integration command boundary (OSC 133) reported by a pane's
/// engine: the command's output started, or the command ended (with the exit
/// code, when the shell reported one).
#[derive(Clone, Copy, Debug, PartialEq, Eq, Structural)]
pub enum CommandBoundary {
    OutputStart,
    End { exit_code: Option<i32> },
}

/// The command-timer state after one boundary seen at time `now`, and the
/// command it finished (exit code, run time), if any: an output start
/// (re)starts the timer; an end stops a running timer and reports the
/// command (its run time is zero should the start lie after `now`, as with
/// an `Instant`'s elapsed time); an end with no timer running reports
/// nothing.
pub open spec fn boundary_step(
    started: Option<u64>,
    finished: Option<(Option<i32>, u64)>,
    b: CommandBoundary,
    now: u64,
) -> (Option<u64>, Option<(Option<i32>, u64)>) {
    match b {
        CommandBoundary::OutputStart => (Some(now), finished),
        CommandBoundary::End { exit_code } => match started {
            Some(s) => (None, Some((exit_code, if now >= s { (now - s) as u64 } else { 0 }))),
            None => (None, finished),
        },
    }
}

/// The timer state and the latest finished command after feeding `bs` in
/// order, starting from `started`.
pub open spec fn pair_boundaries(started: Option<u64>, bs: Seq<CommandBoundary>, now: u64) -> (
    Option<u64>,
    Option<(Option<i32>, u64)>,
)
    decreases bs.len(),
{
    if bs.len() == 0 {
        (started, None)
    } else {
        let prev = pair_boundaries(started, bs.drop_last(), now);
        boundary_step(prev.0, prev.1, bs.last(), now)
    }
}

/// Pair the command boundaries drained from a pane's engine in one pump
/// (`now`: the pump's timestamp) with the pane's command timer: returns the
/// new timer state and the most recent command that finished (its exit code
/// and run time) for command-finish notifications.
pub fn pair_command_boundaries(started: Option<u64>, boundaries: &Vec<CommandBoundary>, now: u64) -> (r: (
    Option<u64>,
    Option<(Option<i32>, u64)>,
))
    ensures
        r == pair_boundaries(started, boundaries@, now),
{
    let mut timer = started;
    let mut finished: Option<(Option<i32>, u64)> = None;
    let mut i: usize = 0;
    while i < boundaries.len()
        invariant
            i <= boundaries@.len(),
            (timer, finished) == pair_boundaries(started, boundaries@.take(i as int), now),
        decreases boundaries@.len() - i,
    {
        assert(boundaries@.take(i + 1).drop_last() =~= boundaries@.take(i as int));
        match boundaries[i] {
            CommandBoundary::OutputStart => {
                timer = Some(now);
            },
            CommandBoundary::End { exit_code } => {
                if let Some(s) = timer {
                    finished = Some((exit_code, if now >= s { now - s } else { 0 }));
                }
                timer = None;
            },
        }
        i = i + 1;
    }
    assert(boundaries@.take(boundaries@.len() as int) =~= boundaries@);
    (timer, finished)
}

/// An event from a pane's io thread.
#[derive(Clone, Copy, Debug, PartialEq, Eq, Structural)]
pub enum IoEvent {
    /// The shell exited with this code.
    ChildExited { exit_code: i32 },
    /// The pty entered (`true`) or left password input (no echo).
    PasswordInput(bool),
}

/// Whether any of `evs` reports the shell's exit.
pub open spec fn any_child_exited(evs: Seq<IoEvent>) -> bool {
    exists|i: int| 0 <= i < evs.len() && evs[i] is ChildExited
}

/// The password state the last password event of `evs` reports, if any.
pub open spec fn last_password(evs: Seq<IoEvent>) -> Option<bool>
    decreases evs.len(),
{
    if evs.len() == 0 {
        None
    } else {
        match evs.last() {
            IoEvent::PasswordInput(active) => Some(active),
            IoEvent::ChildExited { .. } => last_password(evs.drop_last()),
        }
    }
}

/// Drain one batch of io events: whether the shell exited (the pane is then
/// closed), and the latest password-input state, if one was reported.
pub fn drain_io_events(events: &Vec<IoEvent>) -> (r: (bool, Option<bool>))
    ensures
        r.0 == any_child_exited(events@),
        r.1 == last_password(events@),
{
    let mut exited = false;
    let mut password: Option<bool> = None;
    let mut i: usize = 0;
    while i < events.len()
        invariant
            i <= events@.len(),
            exited == any_child_exited(events@.take(i as int)),
            password == last_password(events@.take(i as int)),
        decreases events@.len() - i,
    {
        let ghost prefix = events@.take(i as int);
        let ghost next = events@.take(i + 1);
        assert(next.drop_last() =~= prefix);
        assert(next.last() == events@[i as int]);
        match events[i] {
            IoEvent::ChildExited { .. } => {
                exited = true;
                assert(next[i as int] is ChildExited);
            },
            IoEvent::PasswordInput(active) => {
                password = Some(active);
                assert(exited == any_child_exited(next)) by {
                    if any_child_exited(next) {
                        let k = choose|k: int| 0 <= k < next.len() && next[k] is ChildExited;
                        assert(prefix[k] is ChildExited);
                    }
                }
            },
        }
        assert(exited ==> any_child_exited(next)) by {
            if exited && !(events@[i as int] is ChildExited) {
                let k = choose|k: int| 0 <= k < prefix.len() && prefix[k] is ChildExited;
                assert(next[k] is ChildExited);
            }
        }
        i = i + 1;
    }
    assert(events@.take(events@.len() as int) =~= events@);
    (exited, password)
}

/// Whether a pump services a pane's io: not for a display-only tmux pane
/// (its bytes flow through its control surface) nor for a dead pane (its io
/// is shut down).
pub fn pump_services(display_pane: bool, dead: bool) -> (r: bool)
    ensures
        r == (!display_pane && !dead),
{
    !display_pane && !dead
}

/// The report of a pump that drained `drained` from the pane: an empty
/// report when the pane is not serviced (display pane, or dead before the
/// drain) or turned out dead while draining (its engine lock was poisoned);
/// otherwise what was drained.
pub fn pump_report(display_pane: bool, dead_before: bool, dead_after: bool, drained: PaneReport) -> (r: PaneReport)
    ensures
        r == (if display_pane || dead_before || dead_after { quiet_report() } else { drained }),
{
    if !pump_services(display_pane, dead_before) || dead_after {
        PaneReport {
            exited: false,
            bell: false,
            notification: false,
            command_finished: false,
            progress_report: false,
            password: None,
        }
    } else {
        drained
    }
}

/// A report of nothing: no exit, bell, notification, finished command,
/// progress or password change.
pub open spec fn quiet_report() -> PaneReport {
    PaneReport {
        exited: false,
        bell: false,
        notification: false,
        command_finished: false,
        progress_report: false,
        password: None,
    }
}

/// A dead or display-only pane is never closed by a tick: its pump reports
/// that nothing happened, so the tick neither closes it nor marks a bell,
/// and a dead pane is settled instead (it stays open showing its banner).
pub proof fn lemma_gated_pane_stays_open(
    display_pane: bool,
    dead_before: bool,
    dead_after: bool,
    drained: PaneReport,
    st: PaneStatus,
    cfg: TickSettings,
)
    requires
        display_pane || dead_before || dead_after,
    ensures
        ({
            let rep = if display_pane || dead_before || dead_after { quiet_report() } else { drained };
            &&& !spec_pane_tick(st, rep, cfg).close
            &&& !spec_pane_tick(st, rep, cfg).ring
            &&& st.dead ==> spec_pane_tick(st, rep, cfg).settle
        }),
{
}

} // verus!

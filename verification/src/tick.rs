use vstd::prelude::*;

verus! {

/// What one pump of a pane reported this tick, as far as the tick decides on
/// it.
#[derive(Clone, Copy, Debug, PartialEq, Eq, Structural)]
pub struct PaneReport {
    /// The pane's shell exited.
    pub exited: bool,
    /// The pane rang the bell (BEL).
    pub bell: bool,
    /// The pane posted a desktop notification (OSC 9 / 777).
    pub notification: bool,
    /// A command finished in the pane (OSC 133).
    pub command_finished: bool,
    /// A fresh progress report (OSC 9;4) arrived.
    pub progress_report: bool,
    /// The pty's password-input state, if it changed.
    pub password: Option<bool>,
}

/// The pane's own state the tick reads.
#[derive(Clone, Copy, Debug, PartialEq, Eq, Structural)]
pub struct PaneStatus {
    /// The pane was marked dead (its engine lock was found poisoned).
    pub dead: bool,
    /// A display-only tmux pane (drawn separately, from its control surface).
    pub display_pane: bool,
    /// The pane holds its tab's focus.
    pub focused: bool,
}

/// The settings and app state a tick runs under.
#[derive(Clone, Copy, Debug, PartialEq, Eq, Structural)]
pub struct TickSettings {
    /// Some `bell-features` effect is on.
    pub bell_active: bool,
    /// The `title` bell feature (mark the tab title) is on.
    pub bell_title: bool,
    /// `desktop-notifications` is on.
    pub desktop_notifications: bool,
    /// `notify-on-command-finish` is not `never`.
    pub notify_on_finish: bool,
    /// `progress-style` is on.
    pub progress_style: bool,
    /// This tick also renders the panes (no display link drives them).
    pub render_panes: bool,
    /// The app is frontmost and the tab's window is key.
    pub key_window: bool,
}

/// What the tick does with one pane.
#[derive(Clone, Copy, Debug, PartialEq, Eq, Structural)]
pub struct PaneTick {
    /// Close the pane (its shell exited).
    pub close: bool,
    /// Settle a dead pane (shut its io down, paint the crash banner once).
    pub settle: bool,
    /// Run the selection-autoscroll tick and expire a stale progress bar.
    pub maintain: bool,
    /// Apply the fresh progress report.
    pub apply_progress: bool,
    /// Render the pane and sync its progress layer.
    pub render: bool,
    /// The bell rang in a way the bell features act on.
    pub ring: bool,
    /// Mark the tab's title with the bell indicator.
    pub mark_title: bool,
    /// Collect the pane's desktop notification for delivery.
    pub collect_notification: bool,
    /// A finished command to consider for notification, with whether it
    /// finished in the pane the user is looking at.
    pub command_finish: Option<bool>,
    /// The password state that drives the tab title's lock (focused pane only).
    pub password: Option<bool>,
}

/// The per-pane decisions of one tick. An exited pane is closed and not
/// otherwise serviced; a crashed (dead) pane is never closed here: it is
/// settled and stays open showing its banner. Display-only tmux panes are
/// drawn elsewhere.
pub open spec fn spec_pane_tick(st: PaneStatus, rep: PaneReport, cfg: TickSettings) -> PaneTick {
    let ring = rep.bell && cfg.bell_active;
    PaneTick {
        close: rep.exited,
        settle: !rep.exited && st.dead,
        maintain: !rep.exited,
        apply_progress: !rep.exited && cfg.progress_style && rep.progress_report,
        render: !rep.exited && cfg.render_panes && !st.display_pane,
        ring,
        mark_title: ring && cfg.bell_title,
        collect_notification: cfg.desktop_notifications && rep.notification,
        command_finish: if cfg.notify_on_finish && rep.command_finished {
            Some(cfg.key_window && st.focused)
        } else {
            None
        },
        password: if st.focused { rep.password } else { None },
    }
}

/// Decide what one tick does with one pane, from its pump report.
pub fn pane_tick(st: PaneStatus, rep: PaneReport, cfg: TickSettings) -> (r: PaneTick)
    ensures
        r == spec_pane_tick(st, rep, cfg),
{
    let ring = rep.bell && cfg.bell_active;
    PaneTick {
        close: rep.exited,
        settle: !rep.exited && st.dead,
        maintain: !rep.exited,
        apply_progress: !rep.exited && cfg.progress_style && rep.progress_report,
        render: !rep.exited && cfg.render_panes && !st.display_pane,
        ring,
        mark_title: ring && cfg.bell_title,
        collect_notification: cfg.desktop_notifications && rep.notification,
        command_finish: if cfg.notify_on_finish && rep.command_finished {
            Some(cfg.key_window && st.focused)
        } else {
            None
        },
        password: if st.focused { rep.password } else { None },
    }
}

/// What the tick does with one tab, summed over its panes.
pub struct TabTick {
    /// The indices of the panes to close, in pane order.
    pub close: Vec<usize>,
    /// Some pane rang the bell.
    pub rang: bool,
    /// The tab title gets the bell indicator.
    pub mark_title: bool,
    /// The password state the title reflects (the focused pane's, else off).
    pub password: bool,
}

/// The indices `< n` of the panes of `panes` whose tick closes them.
pub open spec fn closing(panes: Seq<(PaneStatus, PaneReport)>, cfg: TickSettings) -> Seq<usize>
    decreases panes.len(),
{
    if panes.len() == 0 {
        Seq::empty()
    } else {
        let rest = closing(panes.drop_last(), cfg);
        let p = panes.last();
        if spec_pane_tick(p.0, p.1, cfg).close {
            rest.push((panes.len() - 1) as usize)
        } else {
            rest
        }
    }
}

/// The title's password state after the panes' reports, in order, starting
/// from off: the last reported focused-pane state wins.
pub open spec fn tab_password(panes: Seq<(PaneStatus, PaneReport)>, cfg: TickSettings) -> bool
    decreases panes.len(),
{
    if panes.len() == 0 {
        false
    } else {
        match spec_pane_tick(panes.last().0, panes.last().1, cfg).password {
            Some(active) => active,
            None => tab_password(panes.drop_last(), cfg),
        }
    }
}

/// Tick every pane of a tab, in order: which panes close, whether the bell
/// rang (and marks the title), and the password state its title shows.
pub fn tab_tick(panes: &Vec<(PaneStatus, PaneReport)>, cfg: TickSettings) -> (r: TabTick)
    ensures
        r.close@ == closing(panes@, cfg),
        r.rang == exists|i: int| 0 <= i < panes@.len() && #[trigger] spec_pane_tick(panes@[i].0, panes@[i].1, cfg).ring,
        r.mark_title == (r.rang && cfg.bell_title),
        r.password == tab_password(panes@, cfg),
{
    let mut close: Vec<usize> = Vec::new();
    let mut rang = false;
    let mut password = false;
    let mut i: usize = 0;
    while i < panes.len()
        invariant
            i <= panes@.len(),
            close@ == closing(panes@.take(i as int), cfg),
            rang == exists|j: int| 0 <= j < i && #[trigger] spec_pane_tick(panes@[j].0, panes@[j].1, cfg).ring,
            password == tab_password(panes@.take(i as int), cfg),
        decreases panes@.len() - i,
    {
        let ghost prefix = panes@.take(i as int);
        let ghost next = panes@.take(i + 1);
        assert(next.drop_last() =~= prefix);
        assert(next.last() == panes@[i as int]);
        let (st, rep) = panes[i];
        let t = pane_tick(st, rep, cfg);
        if t.close {
            close.push(i);
        }
        if t.ring {
            rang = true;
        }
        if let Some(active) = t.password {
            password = active;
        }
        assert(next.len() - 1 == i);
        i = i + 1;
    }
    assert(panes@.take(panes@.len() as int) =~= panes@);
    TabTick { close, rang, mark_title: rang && cfg.bell_title, password }
}

/// What the tick does once every tab has been serviced.
#[derive(Clone, Copy, Debug, PartialEq, Eq, Structural)]
pub struct TickEnd {
    /// Play the system alert sound.
    pub beep: bool,
    /// Bounce the Dock icon.
    pub request_attention: bool,
    /// Terminate the app.
    pub quit: bool,
}

/// The end-of-tick effects: the audible (`system`) and Dock-bounce
/// (`attention`) bell effects fire once when any pane rang; the app quits
/// when its last tab is gone and `quit-after-last-window-closed` is set.
pub fn tick_end(any_bell: bool, bell_system: bool, bell_attention: bool, tab_count: usize, quit_after_last_window_closed: bool) -> (r: TickEnd)
    ensures
        r.beep == (any_bell && bell_system),
        r.request_attention == (any_bell && bell_attention),
        r.quit == (tab_count == 0 && quit_after_last_window_closed),
{
    TickEnd {
        beep: any_bell && bell_system,
        request_attention: any_bell && bell_attention,
        quit: tab_count == 0 && quit_after_last_window_closed,
    }
}

/// A crashed pane stays open: whatever it reports, a pane whose shell did not
/// exit is never closed by a tick, and a dead one is settled instead; a pane
/// whose shell exited is always closed.
pub proof fn lemma_crashed_pane_stays_open(st: PaneStatus, rep: PaneReport, cfg: TickSettings)
    ensures
        !rep.exited ==> !spec_pane_tick(st, rep, cfg).close,
        !rep.exited && st.dead ==> spec_pane_tick(st, rep, cfg).settle,
        rep.exited ==> spec_pane_tick(st, rep, cfg).close && !spec_pane_tick(st, rep, cfg).render,
{
}

/// A finished command is offered for notification exactly when
/// notify-on-command-finish is on and a command finished; it counts as seen
/// by the user only when the app is frontmost with the tab's window key and
/// the pane holds the tab's focus. In particular a tick with the window not
/// key (the app in the background) never counts a finish as seen, and an
/// unfocused pane's finish is never seen.
pub proof fn lemma_finish_seen_only_when_looking(st: PaneStatus, rep: PaneReport, cfg: TickSettings)
    ensures
        (spec_pane_tick(st, rep, cfg).command_finish is Some) == (cfg.notify_on_finish && rep.command_finished),
        spec_pane_tick(st, rep, cfg).command_finish == Some(true) ==> cfg.key_window && st.focused,
        !cfg.key_window ==> spec_pane_tick(st, rep, cfg).command_finish != Some(true),
        !st.focused ==> spec_pane_tick(st, rep, cfg).command_finish != Some(true),
        cfg.notify_on_finish && rep.command_finished && cfg.key_window && st.focused
            ==> spec_pane_tick(st, rep, cfg).command_finish == Some(true),
        cfg.notify_on_finish && rep.command_finished && !(cfg.key_window && st.focused)
            ==> spec_pane_tick(st, rep, cfg).command_finish == Some(false),
{
}

/// Only the focused pane drives the title's password lock, and it passes its
/// report on unchanged; a bell marks the title only when the bell features
/// act on it and the title feature is on.
pub proof fn lemma_password_and_bell_follow_the_report(st: PaneStatus, rep: PaneReport, cfg: TickSettings)
    ensures
        !st.focused ==> spec_pane_tick(st, rep, cfg).password is None,
        st.focused ==> spec_pane_tick(st, rep, cfg).password == rep.password,
        spec_pane_tick(st, rep, cfg).ring == (rep.bell && cfg.bell_active),
        spec_pane_tick(st, rep, cfg).mark_title ==> spec_pane_tick(st, rep, cfg).ring && cfg.bell_title,
        rep.bell && cfg.bell_active && cfg.bell_title ==> spec_pane_tick(st, rep, cfg).mark_title,
        spec_pane_tick(st, rep, cfg).collect_notification == (cfg.desktop_notifications && rep.notification),
        spec_pane_tick(st, rep, cfg).render ==> !rep.exited && cfg.render_panes && !st.display_pane,
{
}

/// A tab tick closes exactly the panes whose shell exited, each once and in
/// pane order, and nothing else: a crashed pane that did not exit stays.
pub proof fn lemma_tab_tick_closes_exactly_the_exited(panes: Seq<(PaneStatus, PaneReport)>, cfg: TickSettings)
    requires
        panes.len() <= usize::MAX,
    ensures
        forall|k: int| 0 <= k < closing(panes, cfg).len() ==> {
            &&& (#[trigger] closing(panes, cfg)[k]) < panes.len()
            &&& panes[closing(panes, cfg)[k] as int].1.exited
        },
        forall|j: int| 0 <= j < panes.len() && (#[trigger] panes[j]).1.exited ==> closing(panes, cfg).contains(j as usize),
        forall|a: int, b: int| 0 <= a < b < closing(panes, cfg).len() ==> closing(panes, cfg)[a] < closing(panes, cfg)[b],
    decreases panes.len(),
{
    if panes.len() > 0 {
        let init = panes.drop_last();
        lemma_tab_tick_closes_exactly_the_exited(init, cfg);
        let rest = closing(init, cfg);
        let last = (panes.len() - 1) as usize;
        assert(last as int == panes.len() - 1);
        let c = closing(panes, cfg);
        if panes.last().1.exited {
            assert(c == rest.push(last));
            assert forall|k: int| 0 <= k < c.len() implies {
                &&& (#[trigger] c[k]) < panes.len()
                &&& panes[c[k] as int].1.exited
            } by {
                if k < rest.len() {
                    assert(c[k] == rest[k]);
                    assert(init[rest[k] as int] == panes[rest[k] as int]);
                }
            }
            assert forall|a: int, b: int| 0 <= a < b < c.len() implies c[a] < c[b] by {
                if b < rest.len() {
                    assert(c[a] == rest[a] && c[b] == rest[b]);
                } else {
                    assert(c[a] == rest[a]);
                }
            }
        } else {
            assert(c == rest);
            assert forall|k: int| 0 <= k < c.len() implies {
                &&& (#[trigger] c[k]) < panes.len()
                &&& panes[c[k] as int].1.exited
            } by {
                assert(init[rest[k] as int] == panes[rest[k] as int]);
            }
        }
        assert forall|j: int| 0 <= j < panes.len() && (#[trigger] panes[j]).1.exited implies c.contains(
            j as usize,
        ) by {
            if j < init.len() {
                assert(init[j] == panes[j]);
                assert(rest.contains(j as usize));
                let w = choose|w: int| 0 <= w < rest.len() && rest[w] == j as usize;
                if panes.last().1.exited {
                    assert(c[w] == j as usize);
                }
            } else {
                assert(c[rest.len() as int] == last);
            }
        }
    }
}

/// The tab title's password lock follows the focused pane: with no focused
/// pane reporting a change it is off, and it shows the state the last
/// focused pane reported.
pub proof fn lemma_tab_password_from_focused_pane(panes: Seq<(PaneStatus, PaneReport)>, cfg: TickSettings)
    ensures
        (forall|j: int| 0 <= j < panes.len() ==> !(#[trigger] panes[j]).0.focused || panes[j].1.password is None)
            ==> !tab_password(panes, cfg),
        panes.len() > 0 && panes.last().0.focused && panes.last().1.password is Some ==> tab_password(panes, cfg)
            == panes.last().1.password->Some_0,
    decreases panes.len(),
{
    if panes.len() > 0 {
        let init = panes.drop_last();
        lemma_tab_password_from_focused_pane(init, cfg);
        if forall|j: int| 0 <= j < panes.len() ==> !(#[trigger] panes[j]).0.focused || panes[j].1.password is None {
            assert forall|j: int| 0 <= j < init.len() implies !(#[trigger] init[j]).0.focused
                || init[j].1.password is None by {
                assert(init[j] == panes[j]);
            }
            assert(!panes[panes.len() - 1].0.focused || panes[panes.len() - 1].1.password is None);
        }
    }
}

} // verus!

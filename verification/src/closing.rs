use vstd::prelude::*;

verus! {

/// The `confirm-close-surface` setting.
#[derive(Clone, Copy, Debug, PartialEq, Eq, Structural)]
pub enum ConfirmCloseSurface {
    /// Never ask.
    Never,
    /// Always ask, even at a shell prompt.
    Always,
    /// Ask only while a command runs (the cursor is not at a prompt).
    OnRunning,
}

/// What closing a pane needs to know about it: whether it was marked dead,
/// and whether its cursor sits at a shell prompt.
#[derive(Clone, Copy, Debug, PartialEq, Eq, Structural)]
pub struct CloseProbe {
    pub dead: bool,
    pub at_prompt: bool,
}

/// Whether closing a pane asks for confirmation under `mode`: never for a
/// missing or dead pane; `always` asks even at a prompt; `on-running` asks
/// only when the cursor is not at a prompt (a command runs, or no shell
/// integration says otherwise).
pub open spec fn spec_needs_confirm(mode: ConfirmCloseSurface, pane: Option<CloseProbe>) -> bool {
    match pane {
        None => false,
        Some(p) => !p.dead && match mode {
            ConfirmCloseSurface::Never => false,
            ConfirmCloseSurface::Always => true,
            ConfirmCloseSurface::OnRunning => !p.at_prompt,
        },
    }
}

/// Whether closing a pane (`None`: no such pane) needs confirmation.
pub fn surface_needs_confirm_close(mode: ConfirmCloseSurface, pane: Option<CloseProbe>) -> (r: bool)
    ensures
        r == spec_needs_confirm(mode, pane),
{
    if mode == ConfirmCloseSurface::Never {
        return false;
    }
    match pane {
        None => false,
        Some(p) => {
            if p.dead {
                return false;
            }
            match mode {
                ConfirmCloseSurface::Never => false,
                ConfirmCloseSurface::Always => true,
                ConfirmCloseSurface::OnRunning => !p.at_prompt,
            }
        },
    }
}

/// Whether closing a whole tab/window needs confirmation: when any of its
/// panes would.
pub fn tab_needs_confirm_close(mode: ConfirmCloseSurface, panes: &Vec<CloseProbe>) -> (r: bool)
    ensures
        r == exists|i: int| 0 <= i < panes@.len() && #[trigger] spec_needs_confirm(mode, Some(panes@[i])),
{
    let mut i: usize = 0;
    while i < panes.len()
        invariant
            i <= panes@.len(),
            forall|j: int| 0 <= j < i ==> !#[trigger] spec_needs_confirm(mode, Some(panes@[j])),
        decreases panes@.len() - i,
    {
        if surface_needs_confirm_close(mode, Some(panes[i])) {
            return true;
        }
        i = i + 1;
    }
    false
}

/// What closing one pane of a tab does.
#[derive(Clone, Copy, Debug, PartialEq, Eq, Structural)]
pub enum SurfaceClose {
    /// A tmux-managed pane: send tmux `kill-pane`; the reconcile removes it.
    KillTmuxPane,
    /// It was the tab's last pane: close the tab.
    CloseTab,
    /// Remove the pane and focus `focus`; `focus_in` when focus moved there
    /// (the closed pane held it), so that pane gets a focus-in report.
    Refocus { focus: u64, focus_in: bool },
}

/// Decide a pane close. `tmux_pane` says whether the pane mirrors a tmux
/// pane; `new_focus` is what removing the pane from the split tree left
/// focused (`None`: it was the last pane); `previous_focus` the pane focused
/// before.
pub fn close_surface_plan(tmux_pane: bool, new_focus: Option<u64>, previous_focus: u64, surface: u64) -> (r: SurfaceClose)
    ensures
        r == (if tmux_pane {
            SurfaceClose::KillTmuxPane
        } else {
            match new_focus {
                None => SurfaceClose::CloseTab,
                Some(f) => SurfaceClose::Refocus { focus: f, focus_in: previous_focus == surface && f != surface },
            }
        }),
{
    if tmux_pane {
        return SurfaceClose::KillTmuxPane;
    }
    match new_focus {
        None => SurfaceClose::CloseTab,
        Some(f) => SurfaceClose::Refocus { focus: f, focus_in: previous_focus == surface && f != surface },
    }
}

/// A dead pane never holds up a close, and `never` never asks: closing a tab
/// whose panes are all dead (or under `never`) proceeds without a prompt.
pub proof fn lemma_dead_or_never_closes_freely(mode: ConfirmCloseSurface, panes: Seq<CloseProbe>)
    requires
        mode == ConfirmCloseSurface::Never || forall|i: int| 0 <= i < panes.len() ==> (#[trigger] panes[i]).dead,
    ensures
        !exists|i: int| 0 <= i < panes.len() && #[trigger] spec_needs_confirm(mode, Some(panes[i])),
{
    assert forall|i: int| 0 <= i < panes.len() implies !#[trigger] spec_needs_confirm(mode, Some(panes[i])) by {
        if mode != ConfirmCloseSurface::Never {
            assert(panes[i].dead);
        }
    }
}

/// Under `on-running` a live pane asks exactly when its cursor is not at a
/// prompt; under `always` every live pane asks; a tab asks exactly when one
/// of its panes would.
pub proof fn lemma_confirm_follows_the_setting(p: CloseProbe, panes: Seq<CloseProbe>, k: int)
    ensures
        !p.dead ==> spec_needs_confirm(ConfirmCloseSurface::OnRunning, Some(p)) == !p.at_prompt,
        !p.dead ==> spec_needs_confirm(ConfirmCloseSurface::Always, Some(p)),
        !spec_needs_confirm(ConfirmCloseSurface::Never, Some(p)),
        p.dead ==> !spec_needs_confirm(ConfirmCloseSurface::Always, Some(p)),
        0 <= k < panes.len() && !panes[k].dead && !panes[k].at_prompt ==> exists|i: int|
            0 <= i < panes.len() && #[trigger] spec_needs_confirm(ConfirmCloseSurface::OnRunning, Some(panes[i])),
{
    if 0 <= k < panes.len() && !panes[k].dead && !panes[k].at_prompt {
        assert(spec_needs_confirm(ConfirmCloseSurface::OnRunning, Some(panes[k])));
    }
}

} // verus!

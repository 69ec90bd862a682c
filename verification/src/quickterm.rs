use vstd::prelude::*;

verus! {

/// The quick-terminal (dropdown) state: whether its window + surface exist
/// (they are built lazily on the first toggle) and whether it is currently
/// animated in.
#[derive(Clone, Copy, Debug, PartialEq, Eq, Structural)]
pub struct QuickTerminal {
    pub exists: bool,
    pub visible: bool,
}

/// What a toggle asks the host to do next.
#[derive(Clone, Copy, Debug, PartialEq, Eq, Structural)]
pub enum QuickTerminalStep {
    /// Build the dropdown window + surface, then (if that worked) animate it in.
    Build,
    /// Animate the dropdown in.
    Show,
    /// Animate the dropdown out.
    Hide,
}

impl QuickTerminal {
    /// No dropdown yet.
    pub fn new() -> (r: QuickTerminal)
        ensures
            !r.exists,
            !r.visible,
    {
        QuickTerminal { exists: false, visible: false }
    }

    /// The state a toggle starts from: a dropdown whose shell exited (its tab
    /// is gone, `tab_alive` false) is forgotten so a fresh one is built.
    pub open spec fn spec_refresh(self, tab_alive: bool) -> QuickTerminal {
        if self.exists && !tab_alive { QuickTerminal { exists: false, visible: false } } else { self }
    }

    /// The step a toggle takes from `self` (after the refresh above).
    pub open spec fn spec_toggle_step(self) -> QuickTerminalStep {
        if !self.exists {
            QuickTerminalStep::Build
        } else if self.visible {
            QuickTerminalStep::Hide
        } else {
            QuickTerminalStep::Show
        }
    }

    /// Toggle the dropdown: build it on first use, else animate it out when
    /// shown and in when hidden. `tab_alive` says whether its tab still exists.
    pub fn toggle_quick_terminal(&mut self, tab_alive: bool) -> (r: QuickTerminalStep)
        ensures
            *final(self) == old(self).spec_refresh(tab_alive),
            r == old(self).spec_refresh(tab_alive).spec_toggle_step(),
    {
        if self.exists && !tab_alive {
            self.exists = false;
            self.visible = false;
        }
        if !self.exists {
            QuickTerminalStep::Build
        } else if self.visible {
            QuickTerminalStep::Hide
        } else {
            QuickTerminalStep::Show
        }
    }

    /// Record the outcome of building the dropdown (`ok` false when its
    /// surface could not be built, e.g. no pty). A built dropdown starts
    /// hidden. Returns whether it should now be animated in.
    pub fn quick_terminal_built(&mut self, ok: bool) -> (r: bool)
        ensures
            r == ok,
            ok ==> *final(self) == (QuickTerminal { exists: true, visible: false }),
            !ok ==> *final(self) == *old(self),
    {
        if ok {
            self.exists = true;
            self.visible = false;
        }
        ok
    }

    /// Whether an animation to `show` runs: only for an existing dropdown
    /// whose tab is alive, on a screen (`screen_available`), and that is not
    /// already in the requested state.
    pub open spec fn spec_animates(self, show: bool, tab_alive: bool, screen_available: bool) -> bool {
        self.exists && self.visible != show && tab_alive && screen_available
    }

    /// Animate the dropdown in (`show`) or out. Idempotent: nothing happens
    /// when it is already in the requested state (or cannot be animated). The
    /// new visibility is recorded before the animation runs. Returns whether
    /// the slide animation should run.
    pub fn animate_quick_terminal(&mut self, show: bool, tab_alive: bool, screen_available: bool) -> (r: bool)
        ensures
            r == old(self).spec_animates(show, tab_alive, screen_available),
            r ==> *final(self) == (QuickTerminal { visible: show, ..*old(self) }),
            !r ==> *final(self) == *old(self),
    {
        if !self.exists || self.visible == show || !tab_alive || !screen_available {
            return false;
        }
        self.visible = show;
        true
    }

    /// On losing key focus: whether to animate the dropdown out
    /// (`quick-terminal-autohide` on and the dropdown visible).
    pub fn quick_terminal_autohide_on_resign(&self, autohide: bool) -> (r: bool)
        ensures
            r == (autohide && self.exists && self.visible),
    {
        autohide && self.exists && self.visible
    }

    /// Whether the dropdown is currently animated in.
    pub fn quick_terminal_visible(&self) -> (r: bool)
        ensures
            r == (self.exists && self.visible),
    {
        self.exists && self.visible
    }
}

/// The state after one toggle that ends in an animation (the dropdown already
/// exists, its tab is alive, a screen is available).
pub open spec fn toggled(q: QuickTerminal) -> QuickTerminal {
    QuickTerminal { visible: !q.visible, ..q }
}

/// Toggling a live dropdown flips its visibility, and toggling twice puts it
/// back where it was.
pub proof fn lemma_toggle_twice_restores(q: QuickTerminal)
    requires
        q.exists,
    ensures
        q.spec_refresh(true) == q,
        q.spec_toggle_step() == (if q.visible { QuickTerminalStep::Hide } else { QuickTerminalStep::Show }),
        q.spec_animates(!q.visible, true, true),
        toggled(q).spec_animates(q.visible, true, true),
        toggled(toggled(q)) == q,
{
}

} // verus!

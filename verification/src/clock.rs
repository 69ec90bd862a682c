use vstd::prelude::*;

verus! {

/// The render-clock state the app delegate keeps: whether a vsync display
/// link is bound to some window's content view, and which run-loop timers
/// have been started (the combined ~60 Hz pace timer that pumps and renders,
/// or the io-only service timer that runs beside a display link).
#[derive(Clone, Copy, Debug, PartialEq, Eq, Structural)]
pub struct AppDelegate {
    pub display_link: bool,
    pub pace_timer: bool,
    pub service_timer: bool,
}

/// What a rebind of the display link did.
#[derive(Clone, Copy, Debug, PartialEq, Eq, Structural)]
pub enum Rebind {
    /// No display link exists (rendering is timer-driven): nothing to do.
    NoLink,
    /// The link was re-pointed at a visible window's content view.
    Rebound,
    /// No visible window could take the link: it was invalidated and the
    /// pace timer started in its place.
    FellBackToPaceTimer,
}

impl AppDelegate {
    /// Whether something drives rendering: a display link or the pace timer.
    pub open spec fn has_render_clock(self) -> bool {
        self.display_link || self.pace_timer
    }

    /// The state after binding the link to a window (`has_view`: the window
    /// has a content view to bind to), and whether it was bound.
    pub open spec fn spec_bind(self, has_view: bool) -> (AppDelegate, bool) {
        if has_view {
            (AppDelegate { display_link: true, ..self }, true)
        } else {
            (self, false)
        }
    }

    /// The state after rebinding the link to the first visible window
    /// (`None`: no window is visible), and what the rebind did.
    pub open spec fn spec_rebind(self, first_visible: Option<bool>) -> (AppDelegate, Rebind) {
        if !self.display_link {
            (self, Rebind::NoLink)
        } else if first_visible == Some(true) {
            (self, Rebind::Rebound)
        } else {
            (AppDelegate { display_link: false, pace_timer: true, ..self }, Rebind::FellBackToPaceTimer)
        }
    }

    /// A delegate before launch: no link, no timers.
    pub fn new() -> (r: AppDelegate)
        ensures
            !r.display_link,
            !r.pace_timer,
            !r.service_timer,
    {
        AppDelegate { display_link: false, pace_timer: false, service_timer: false }
    }

    /// Bind (or rebind) the display link to a window. `window_has_content_view`
    /// says whether the window has a screen-backed content view to bind to;
    /// without one nothing changes and `false` is returned. Otherwise any
    /// previous link is replaced by one on that view and `true` is returned.
    pub fn bind_display_link(&mut self, window_has_content_view: bool) -> (r: bool)
        ensures
            (*final(self), r) == old(self).spec_bind(window_has_content_view),
    {
        if !window_has_content_view {
            return false;
        }
        self.display_link = true;
        true
    }

    /// Start the display-link render clock on the active window.
    /// `active_window` is `None` when there is no active window, else whether
    /// it has a content view. Returns whether a link was bound (when not, the
    /// caller falls back to the pace timer).
    pub fn start_display_link(&mut self, active_window: Option<bool>) -> (r: bool)
        ensures
            (*final(self), r) == (match active_window {
                None => (*old(self), false),
                Some(has_view) => old(self).spec_bind(has_view),
            }),
    {
        match active_window {
            None => false,
            Some(has_view) => self.bind_display_link(has_view),
        }
    }

    /// Re-point the display link at a currently visible window after the one
    /// it was bound to was hidden. `first_visible` is `None` when no window is
    /// visible, else whether the first visible window has a content view. A
    /// no-op when no link exists; when no visible window can take the link it
    /// is dropped and the pace timer takes over, so rendering never stalls.
    pub fn rebind_display_link(&mut self, first_visible: Option<bool>) -> (r: Rebind)
        ensures
            (*final(self), r) == old(self).spec_rebind(first_visible),
    {
        if !self.display_link {
            return Rebind::NoLink;
        }
        let bound = match first_visible {
            Some(has_view) => self.bind_display_link(has_view),
            None => false,
        };
        if bound {
            Rebind::Rebound
        } else {
            self.display_link = false;
            self.pace_timer = true;
            Rebind::FellBackToPaceTimer
        }
    }

    /// Choose the launch pacing. GUI smokes keep the deterministic combined
    /// pace timer; an interactive run renders on a display link bound to the
    /// active window with io serviced by the service timer, falling back to
    /// the pace timer when no link can be bound. Returns whether the display
    /// link is used.
    pub fn start_render_pacing(&mut self, gui_smoke: bool, active_window: Option<bool>) -> (r: bool)
        requires
            !old(self).display_link,
            !old(self).pace_timer,
            !old(self).service_timer,
        ensures
            r == (!gui_smoke && active_window == Some(true)),
            final(self).display_link == r,
            final(self).service_timer == r,
            final(self).pace_timer == !r,
            final(self).has_render_clock(),
    {
        if !gui_smoke && self.start_display_link(active_window) {
            self.service_timer = true;
            true
        } else {
            self.pace_timer = true;
            false
        }
    }
}

/// Rendering always has a clock: binding or rebinding the display link
/// (whatever windows remain visible) never takes away the last thing that
/// drives rendering — a display link or the pace timer.
pub proof fn lemma_render_clock_survives_rebind(s: AppDelegate, has_view: bool, first_visible: Option<bool>)
    requires
        s.has_render_clock(),
    ensures
        s.spec_bind(has_view).0.has_render_clock(),
        s.spec_rebind(first_visible).0.has_render_clock(),
{
}

} // verus!

use vstd::prelude::*;
use crate::title::TITLE_GRACE_NANOS;

verus! {

/// The `resize-overlay` setting.
#[derive(Clone, Copy, Debug, PartialEq, Eq, Structural)]
pub enum ResizeOverlayMode {
    /// Flash the grid size on every resize.
    Always,
    /// Never show it.
    Never,
    /// Show it, but not during the window-open resize storm (the first
    /// 500 ms of a tab's life).
    AfterFirst,
}

/// Whether a resize of a tab `age_nanos` old flashes the `cols ⨯ rows`
/// overlay (`has_focused`: the tab has a focused pane to size it by).
pub fn resize_overlay_shows(mode: ResizeOverlayMode, age_nanos: u64, has_focused: bool) -> (r: bool)
    ensures
        r == (has_focused && match mode {
            ResizeOverlayMode::Never => false,
            ResizeOverlayMode::Always => true,
            ResizeOverlayMode::AfterFirst => age_nanos >= TITLE_GRACE_NANOS,
        }),
{
    match mode {
        ResizeOverlayMode::Never => false,
        ResizeOverlayMode::Always => has_focused,
        ResizeOverlayMode::AfterFirst => has_focused && age_nanos >= TITLE_GRACE_NANOS,
    }
}

/// A tab's resize-overlay timer: when the shown overlay hides again
/// (`None`: it is hidden). Times are nanoseconds on one monotonic clock.
#[derive(Clone, Copy, Debug, PartialEq, Eq, Structural)]
pub struct ResizeOverlay {
    pub deadline: Option<u64>,
}

impl ResizeOverlay {
    /// A hidden overlay.
    pub fn new() -> (r: ResizeOverlay)
        ensures
            r.deadline is None,
    {
        ResizeOverlay { deadline: None }
    }

    /// Show the overlay at `now` for `duration`, re-arming its hide deadline.
    pub fn show(&mut self, now: u64, duration: u64)
        requires
            now + duration <= u64::MAX,
        ensures
            final(self).deadline == Some((now + duration) as u64),
    {
        self.deadline = Some(now + duration);
    }

    /// The overlay's state after a tick at `now`, and whether the tick hides
    /// it: a shown overlay hides once its deadline is reached.
    pub open spec fn spec_tick(self, now: u64) -> (ResizeOverlay, bool) {
        match self.deadline {
            Some(d) => if now >= d { (ResizeOverlay { deadline: None }, true) } else { (self, false) },
            None => (self, false),
        }
    }

    /// One tick at `now`: hide the overlay when its deadline has passed.
    /// Returns whether it was hidden now.
    pub fn tick(&mut self, now: u64) -> (r: bool)
        ensures
            (*final(self), r) == old(self).spec_tick(now),
    {
        match self.deadline {
            Some(d) => {
                if now >= d {
                    self.deadline = None;
                    true
                } else {
                    false
                }
            },
            None => false,
        }
    }

    /// Whether the overlay is shown at `now`: only while its hide deadline is
    /// still in the future.
    pub open spec fn shown_at(self, now: u64) -> bool {
        self.deadline matches Some(d) && now < d
    }

    /// Whether the overlay is shown at `now`: only while its hide deadline
    /// is still in the future (a passed deadline counts as hidden even before
    /// a tick has cleared it).
    pub fn is_shown(&self, now: u64) -> (r: bool)
        ensures
            r == self.shown_at(now),
    {
        match self.deadline {
            Some(d) => now < d,
            None => false,
        }
    }
}

/// An overlay shown at `now` for `duration` is shown exactly before
/// `now + duration` and stays up through every tick before then; the first
/// tick at or after it hides it, and it is hidden only once.
pub proof fn lemma_overlay_hides_once(now: u64, duration: u64, t: u64)
    requires
        now + duration <= u64::MAX,
    ensures
        ({
            let o = ResizeOverlay { deadline: Some((now + duration) as u64) };
            &&& o.shown_at(t) == (t < now + duration)
            &&& t < now + duration ==> o.spec_tick(t) == (o, false)
            &&& t >= now + duration ==> o.spec_tick(t).1 && !o.spec_tick(t).0.spec_tick(t).1
        }),
{
}

} // verus!

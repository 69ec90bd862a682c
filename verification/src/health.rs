use vstd::prelude::*;
use vstd::string::*;

verus! {

/// The crash reason recorded when a surface's engine lock is first seen
/// poisoned.
pub open spec fn poison_reason() -> Seq<char> {
    "engine thread panicked (lock poisoned)"@
}

/// A surface's poison-resilience state: whether it has been marked dead (its
/// engine lock was found poisoned), why, and whether its one-shot crash
/// banner has already been painted.
pub struct SurfaceHealth {
    pub dead: bool,
    pub dead_reason: Option<String>,
    pub banner_drawn: bool,
}

/// The plain view of an optional `String`.
pub open spec fn opt_string_view(s: Option<String>) -> Option<Seq<char>> {
    match s {
        Some(t) => Some(t@),
        None => None,
    }
}

impl SurfaceHealth {
    /// A live surface.
    pub fn new() -> (r: SurfaceHealth)
        ensures
            !r.dead,
            r.dead_reason is None,
            !r.banner_drawn,
    {
        SurfaceHealth { dead: false, dead_reason: None, banner_drawn: false }
    }

    /// Record the outcome of one engine lock (`poisoned`: the lock came back
    /// poisoned). The first poisoned lock marks the surface dead with the
    /// poison reason; later ones, and clean locks, change nothing. A surface
    /// never comes back to life.
    pub fn engine(&mut self, poisoned: bool)
        ensures
            final(self).dead == (old(self).dead || poisoned),
            final(self).banner_drawn == old(self).banner_drawn,
            poisoned && !old(self).dead ==> opt_string_view(final(self).dead_reason) == Some(poison_reason()),
            !(poisoned && !old(self).dead) ==> opt_string_view(final(self).dead_reason) == opt_string_view(old(self).dead_reason),
    {
        if poisoned && !self.dead {
            self.dead = true;
            self.dead_reason = Some(String::from_str("engine thread panicked (lock poisoned)"));
        }
    }

    /// Whether this surface has been marked dead.
    pub fn is_dead(&self) -> (r: bool)
        ensures
            r == self.dead,
    {
        self.dead
    }

    /// The state after a settle: the banner counts as painted.
    pub open spec fn settled(self) -> SurfaceHealth {
        SurfaceHealth { banner_drawn: true, ..self }
    }

    /// The banner a settle hands back: the crash banner for the recorded
    /// reason (`unknown` when none was recorded) the first time, nothing once
    /// it has been painted.
    pub open spec fn settle_banner(self) -> Option<Seq<char>> {
        if self.banner_drawn {
            None
        } else {
            Some(spec_crash_banner(
                match opt_string_view(self.dead_reason) {
                    Some(s) => s,
                    None => "unknown"@,
                },
            ))
        }
    }

    /// Bring a dead surface to rest: the first call returns the banner to
    /// paint (its io is then shut down by the caller); every later call
    /// returns `None`, so the banner is painted exactly once.
    pub fn settle_dead(&mut self) -> (r: Option<String>)
        ensures
            *final(self) == old(self).settled(),
            opt_string_view(r) == old(self).settle_banner(),
    {
        if self.banner_drawn {
            return None;
        }
        self.banner_drawn = true;
        let banner = match &self.dead_reason {
            Some(reason) => crash_banner(reason.as_str()),
            None => crash_banner("unknown"),
        };
        Some(banner)
    }
}

/// The one-shot crash banner: clear the screen, home the cursor, a bold red
/// `[terminal crashed — <reason>]` line, then an explanation.
pub open spec fn spec_crash_banner(reason: Seq<char>) -> Seq<char> {
    "\x1b[2J\x1b[H\x1b[1;31m[terminal crashed — "@ + reason
        + "]\x1b[0m\r\n\x1b[0mThis pane's engine thread panicked; its shell has been stopped.\r\nClose this pane to dismiss.\r\n"@
}

/// The banner painted into a poisoned surface's (recovered) engine so the
/// pane reports the crash instead of freezing on a stale frame.
pub fn crash_banner(reason: &str) -> (r: String)
    ensures
        r@ == spec_crash_banner(reason@),
{
    let mut b = String::from_str("\x1b[2J\x1b[H\x1b[1;31m[terminal crashed — ");
    b.append(reason);
    b.append(
        "]\x1b[0m\r\n\x1b[0mThis pane's engine thread panicked; its shell has been stopped.\r\nClose this pane to dismiss.\r\n",
    );
    b
}

/// Whether a surface is dead after engine locks with the outcomes `locks`
/// (`true`: poisoned), in order, starting from `dead`.
pub open spec fn dead_after(dead: bool, locks: Seq<bool>) -> bool
    decreases locks.len(),
{
    if locks.len() == 0 {
        dead
    } else {
        dead_after(dead, locks.drop_last()) || locks.last()
    }
}

/// A surface is dead after a run of engine locks exactly when it was dead
/// before or one of them came back poisoned: once dead it never comes back,
/// and clean locks never kill it.
pub proof fn lemma_dead_is_permanent(dead: bool, locks: Seq<bool>)
    ensures
        dead_after(dead, locks) == (dead || locks.contains(true)),
    decreases locks.len(),
{
    if locks.len() > 0 {
        lemma_dead_is_permanent(dead, locks.drop_last());
        let init = locks.drop_last();
        if init.contains(true) {
            let k = choose|k: int| 0 <= k < init.len() && init[k] == true;
            assert(locks[k] == true);
        }
        if locks.contains(true) && !locks.last() {
            let k = choose|k: int| 0 <= k < locks.len() && locks[k] == true;
            assert(init[k] == true);
        }
        if locks.last() {
            assert(locks[locks.len() - 1] == true);
        }
    }
}

/// The crash banner is painted exactly once: the first settle of a surface
/// hands it back, every later settle hands back nothing, and settling leaves
/// the surface's death and its reason alone.
pub proof fn lemma_banner_painted_once(h: SurfaceHealth)
    ensures
        !h.banner_drawn ==> h.settle_banner() is Some,
        h.settled().settle_banner() is None,
        h.settled().settled() == h.settled(),
        h.settled().dead == h.dead,
        h.settled().dead_reason == h.dead_reason,
{
}

} // verus!

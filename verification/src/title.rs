use vstd::prelude::*;
use vstd::string::*;

verus! {

/// The title candidate before the fallback: a configured `title` (`forced`)
/// replaces the program's OSC 0/2 title entirely, even when it is empty.
pub open spec fn title_candidate(forced: Option<Seq<char>>, osc_title: Option<Seq<char>>) -> Option<Seq<char>> {
    if forced is Some { forced } else { osc_title }
}

/// The undecorated title: the candidate when it is non-empty, otherwise the
/// ghost emoji once the startup grace period has elapsed, else the app name.
pub open spec fn title_base(
    forced: Option<Seq<char>>,
    osc_title: Option<Seq<char>>,
    grace_elapsed: bool,
) -> Seq<char> {
    let c = title_candidate(forced, osc_title);
    if c is Some && c->Some_0.len() > 0 {
        c->Some_0
    } else if grace_elapsed {
        "👻"@
    } else {
        "qwertty-term"@
    }
}

/// The full window/tab title: the base, prefixed with `🔔 ` while a bell is
/// indicated and suffixed with ` 🔒` while password input is active.
pub open spec fn spec_window_title(
    forced: Option<Seq<char>>,
    osc_title: Option<Seq<char>>,
    grace_elapsed: bool,
    bell: bool,
    password: bool,
) -> Seq<char> {
    let base = title_base(forced, osc_title, grace_elapsed);
    let with_bell = if bell { "🔔 "@ + base } else { base };
    if password { with_bell + " 🔒"@ } else { with_bell }
}

/// The view of an optional string slice.
pub open spec fn opt_str_view(s: Option<&str>) -> Option<Seq<char>> {
    match s {
        Some(t) => Some(t@),
        None => None,
    }
}

/// Compose the window/tab title string. A configured `title` (`forced`)
/// overrides the program-set `osc_title` entirely. With neither (or an empty
/// one), the ghost emoji holds the spot once the 500ms startup grace has
/// elapsed, else the app name. The bell prefix and password-lock suffix are
/// applied on top of whichever base was chosen.
pub fn compose_window_title(
    forced: Option<&str>,
    osc_title: Option<&str>,
    grace_elapsed: bool,
    bell: bool,
    password: bool,
) -> (r: String)
    ensures
        r@ == spec_window_title(
            opt_str_view(forced),
            opt_str_view(osc_title),
            grace_elapsed,
            bell,
            password,
        ),
{
    let candidate: Option<&str> = match forced {
        Some(f) => Some(f),
        None => osc_title,
    };
    let base: &str = match candidate {
        Some(t) if !t.is_empty() => t,
        _ => if grace_elapsed { "👻" } else { "qwertty-term" },
    };
    let mut title = if bell {
        String::from_str("🔔 ")
    } else {
        String::new()
    };
    title.append(base);
    if password {
        title.append(" 🔒");
    }
    proof {
        let b = title_base(opt_str_view(forced), opt_str_view(osc_title), grace_elapsed);
        assert(base@ == b);
    }
    assert(bell ==> title@ =~= spec_window_title(opt_str_view(forced), opt_str_view(osc_title), grace_elapsed, bell, password));
    assert(!bell ==> title@ =~= spec_window_title(opt_str_view(forced), opt_str_view(osc_title), grace_elapsed, bell, password));
    title
}

/// The startup grace before an empty title shows the ghost: 500 ms, in
/// nanoseconds.
pub const TITLE_GRACE_NANOS: u64 = 500_000_000;

/// Refresh a tab's window title on a tick: the composed title (the grace has
/// elapsed once the tab is `age_nanos` old, at least 500 ms), or `None` when
/// it equals the title already set (`last`), so the window is only retitled
/// on a change.
pub fn window_title_change(
    last: &String,
    forced: Option<&str>,
    osc_title: Option<&str>,
    age_nanos: u64,
    bell: bool,
    password: bool,
) -> (r: Option<String>)
    ensures
        ({
            let t = spec_window_title(
                opt_str_view(forced),
                opt_str_view(osc_title),
                age_nanos >= TITLE_GRACE_NANOS,
                bell,
                password,
            );
            if t == last@ {
                r is None
            } else {
                r matches Some(s) && s@ == t
            }
        }),
{
    let title = compose_window_title(forced, osc_title, age_nanos >= TITLE_GRACE_NANOS, bell, password);
    if title == *last {
        None
    } else {
        Some(title)
    }
}

/// The `window-subtitle` setting.
#[derive(Clone, Copy, Debug, PartialEq, Eq, Structural)]
pub enum WindowSubtitle {
    /// No subtitle.
    Disabled,
    /// The focused pane's working directory.
    WorkingDirectory,
}

/// The subtitle under `policy`: empty when disabled, else the focused pane's
/// working directory (empty when it has not reported one).
pub open spec fn spec_window_subtitle(policy: WindowSubtitle, pwd: Option<Seq<char>>) -> Seq<char> {
    match policy {
        WindowSubtitle::Disabled => Seq::empty(),
        WindowSubtitle::WorkingDirectory => match pwd {
            Some(p) => p,
            None => Seq::empty(),
        },
    }
}

/// Refresh a tab's window subtitle on a tick: the subtitle for `policy`
/// (`pwd`: the focused pane's working directory, if known), or `None` when
/// it equals the one already set (`last`).
pub fn window_subtitle_change(last: &String, policy: WindowSubtitle, pwd: Option<&str>) -> (r: Option<String>)
    ensures
        ({
            let t = spec_window_subtitle(policy, opt_str_view(pwd));
            if t == last@ {
                r is None
            } else {
                r matches Some(s) && s@ == t
            }
        }),
{
    let subtitle = match policy {
        WindowSubtitle::Disabled => String::new(),
        WindowSubtitle::WorkingDirectory => match pwd {
            Some(p) => String::from_str(p),
            None => String::new(),
        },
    };
    if subtitle == *last {
        None
    } else {
        Some(subtitle)
    }
}

} // verus!

use vstd::prelude::*;

verus! {

/// Whether the perceived luminance `0.299 r + 0.587 g + 0.114 b` (on the
/// 0–255 scale) is above half of full scale, stated exactly in integers:
/// `(299 r + 587 g + 114 b) / 1000 > 255 / 2`.
pub open spec fn spec_is_light(r: u8, g: u8, b: u8) -> bool {
    299 * r + 587 * g + 114 * b > 127500
}

/// Whether a background color reads as "light": perceived luminance
/// (`0.299r + 0.587g + 0.114b`, normalised to `[0, 1]`) above 0.5.
pub fn background_is_light(rgb: (u8, u8, u8)) -> (r: bool)
    ensures
        r == spec_is_light(rgb.0, rgb.1, rgb.2),
{
    let (r, g, b) = rgb;
    let lum: u32 = 299 * (r as u32) + 587 * (g as u32) + 114 * (b as u32);
    lum > 127500
}

/// The `window-theme` setting.
#[derive(Clone, Copy, Debug, PartialEq, Eq, Structural)]
pub enum WindowTheme {
    Auto,
    System,
    Light,
    Dark,
    Ghostty,
}

/// A built-in window appearance.
#[derive(Clone, Copy, Debug, PartialEq, Eq, Structural)]
pub enum Appearance {
    Aqua,
    DarkAqua,
}

/// The appearance a window is forced to for `theme`, or `None` to follow the
/// system: `Light` → aqua, `Dark` → dark aqua, `Auto` → aqua on a light
/// background else dark aqua, `System` / `Ghostty` → follow the system.
pub open spec fn spec_window_appearance(theme: WindowTheme, bg: (u8, u8, u8)) -> Option<Appearance> {
    match theme {
        WindowTheme::Light => Some(Appearance::Aqua),
        WindowTheme::Dark => Some(Appearance::DarkAqua),
        WindowTheme::Auto => if spec_is_light(bg.0, bg.1, bg.2) {
            Some(Appearance::Aqua)
        } else {
            Some(Appearance::DarkAqua)
        },
        WindowTheme::System | WindowTheme::Ghostty => None,
    }
}

/// Which appearance to apply to a window for the `window-theme` setting;
/// `bg` is the terminal background, used only by `auto`.
pub fn window_appearance(theme: WindowTheme, bg: (u8, u8, u8)) -> (r: Option<Appearance>)
    ensures
        r == spec_window_appearance(theme, bg),
{
    match theme {
        WindowTheme::Light => Some(Appearance::Aqua),
        WindowTheme::Dark => Some(Appearance::DarkAqua),
        WindowTheme::Auto => if background_is_light(bg) {
            Some(Appearance::Aqua)
        } else {
            Some(Appearance::DarkAqua)
        },
        WindowTheme::System | WindowTheme::Ghostty => None,
    }
}

/// The background a surface paints when the theme sets none: `#181818`.
pub fn default_background(configured: Option<(u8, u8, u8)>) -> (r: (u8, u8, u8))
    ensures
        r == (match configured {
            Some(c) => c,
            None => (0x18u8, 0x18u8, 0x18u8),
        }),
{
    match configured {
        Some(c) => c,
        None => (0x18, 0x18, 0x18),
    }
}

/// The `window-show-tab-bar` setting.
#[derive(Clone, Copy, Debug, PartialEq, Eq, Structural)]
pub enum WindowShowTabBar {
    Auto,
    Always,
    Never,
}

/// A window's native tabbing mode.
#[derive(Clone, Copy, Debug, PartialEq, Eq, Structural)]
pub enum TabbingMode {
    Automatic,
    Preferred,
    Disallowed,
}

/// The tabbing mode a new window gets: `auto` → automatic (the tab bar only
/// shows with two or more tabs), `always` → preferred (always shown),
/// `never` → disallowed (new tabs open as windows).
pub fn tabbing_mode(show: WindowShowTabBar) -> (r: TabbingMode)
    ensures
        r == (match show {
            WindowShowTabBar::Auto => TabbingMode::Automatic,
            WindowShowTabBar::Always => TabbingMode::Preferred,
            WindowShowTabBar::Never => TabbingMode::Disallowed,
        }),
{
    match show {
        WindowShowTabBar::Auto => TabbingMode::Automatic,
        WindowShowTabBar::Always => TabbingMode::Preferred,
        WindowShowTabBar::Never => TabbingMode::Disallowed,
    }
}

/// The `window-save-state` setting.
#[derive(Clone, Copy, Debug, PartialEq, Eq, Structural)]
pub enum WindowSaveState {
    Default,
    Never,
    Always,
}

/// What to do with the `NSQuitAlwaysKeepsWindows` user default.
#[derive(Clone, Copy, Debug, PartialEq, Eq, Structural)]
pub enum KeepWindowsDefault {
    /// Set it to this value.
    SetTo(bool),
    /// Remove the override, so the system setting applies.
    Remove,
}

/// `window-save-state` → the `NSQuitAlwaysKeepsWindows` default AppKit reads
/// at quit: `never` → false, `always` → true, `default` → remove the
/// override.
pub fn apply_window_save_state_default(state: WindowSaveState) -> (r: KeepWindowsDefault)
    ensures
        r == (match state {
            WindowSaveState::Never => KeepWindowsDefault::SetTo(false),
            WindowSaveState::Always => KeepWindowsDefault::SetTo(true),
            WindowSaveState::Default => KeepWindowsDefault::Remove,
        }),
{
    match state {
        WindowSaveState::Never => KeepWindowsDefault::SetTo(false),
        WindowSaveState::Always => KeepWindowsDefault::SetTo(true),
        WindowSaveState::Default => KeepWindowsDefault::Remove,
    }
}

/// Whether new windows are restorable: every setting but `never`.
pub fn window_restorable(state: WindowSaveState) -> (r: bool)
    ensures
        r == (state != WindowSaveState::Never),
{
    match state {
        WindowSaveState::Never => false,
        _ => true,
    }
}

} // verus!

use vstd::prelude::*;
use crate::session::SplitDirection;
use crate::tabs::TabAction;

verus! {

/// The direction argument of a `new_split` keybind (`auto` included).
#[derive(Clone, Copy, Debug, PartialEq, Eq, Structural)]
pub enum NewSplitDirection {
    Right,
    Down,
    Left,
    Up,
    Auto,
}

/// The argument of a `goto_split` keybind.
#[derive(Clone, Copy, Debug, PartialEq, Eq, Structural)]
pub enum SplitFocusDirection {
    Previous,
    Next,
    Up,
    Down,
    Left,
    Right,
}

/// The direction of a `resize_split` keybind.
#[derive(Clone, Copy, Debug, PartialEq, Eq, Structural)]
pub enum SplitResizeDirection {
    Up,
    Down,
    Left,
    Right,
}

/// Which way a `navigate_search` keybind goes.
#[derive(Clone, Copy, Debug, PartialEq, Eq, Structural)]
pub enum NavigateSearch {
    Next,
    Previous,
}

/// Which pane of a `close_tab` keybind is meant.
#[derive(Clone, Copy, Debug, PartialEq, Eq, Structural)]
pub enum CloseTabMode {
    This,
    Other,
    Right,
}

/// What a `write_*_file` keybind does with the written file's path.
#[derive(Clone, Copy, Debug, PartialEq, Eq, Structural)]
pub enum WriteScreenAction {
    Copy,
    Paste,
    Open,
}

/// A resolved keybind action, as far as the chord dispatcher reads it.
/// Payloads the dispatcher passes on unread (a font-size delta, a copy
/// format, a fractional page amount) are kept by the caller. `Other` stands
/// for every action this dispatcher does not perform (menu actions, byte
/// actions, ...).
#[derive(Clone, Copy, Debug, PartialEq, Eq, Structural)]
pub enum KeybindAction {
    PreviousTab,
    NextTab,
    LastTab,
    GotoTab(usize),
    NewSplit(NewSplitDirection),
    GotoSplit(SplitFocusDirection),
    ResizeSplit(SplitResizeDirection),
    ToggleSplitZoom,
    EqualizeSplits,
    StartSearch,
    NavigateSearch(NavigateSearch),
    EndSearch,
    ScrollToTop,
    ScrollToBottom,
    ScrollPageUp,
    ScrollPageDown,
    ScrollPageLines(i32),
    ScrollPageFractional,
    CopyToClipboard,
    PasteFromClipboard,
    IncreaseFontSize,
    DecreaseFontSize,
    ResetFontSize,
    NewWindow,
    NewTab,
    CloseSurface,
    CloseTab(CloseTabMode),
    ToggleQuickTerminal,
    ToggleFullscreen,
    WriteScrollbackFile(WriteScreenAction),
    WriteScreenFile(WriteScreenAction),
    WriteSelectionFile(WriteScreenAction),
    ReloadConfig,
    Other,
}

/// Previous / next pane in flatten order.
#[derive(Clone, Copy, Debug, PartialEq, Eq, Structural)]
pub enum Sequential {
    Previous,
    Next,
}

/// A split-management action on the focused pane.
#[derive(Clone, Copy, Debug, PartialEq, Eq, Structural)]
pub enum SplitAction {
    NewSplit(SplitDirection),
    GotoSplit(SplitDirection),
    GotoAdjacent(Sequential),
    ToggleZoom,
    ResizeSplit(SplitDirection),
    EqualizeSplits,
}

/// A search-bar action on the focused pane.
#[derive(Clone, Copy, Debug, PartialEq, Eq, Structural)]
pub enum SearchAction {
    Start,
    End,
    Next,
    Previous,
}

/// A scrollback-viewport move of the focused pane.
#[derive(Clone, Copy, Debug, PartialEq, Eq, Structural)]
pub enum ScrollTo {
    Top,
    Bottom,
    PageUp,
    PageDown,
    Lines(i32),
    /// A fractional page move; the fraction is the keybind's own.
    Fraction,
}

/// A font-size step applied to every pane of the active tab.
#[derive(Clone, Copy, Debug, PartialEq, Eq, Structural)]
pub enum FontStep {
    Up,
    Down,
    Reset,
}

/// What a dispatched chord makes the controller do.
#[derive(Clone, Copy, Debug, PartialEq, Eq, Structural)]
pub enum ChordCommand {
    Tab(TabAction),
    Split(SplitAction),
    Search(SearchAction),
    Scroll(ScrollTo),
    CopySelection,
    Paste,
    FontSize(FontStep),
    NewWindow,
    NewTab,
    CloseFocusedSurface,
    CloseTab,
    ToggleQuickTerminal,
    ToggleFullscreen,
    WriteScrollbackFile(WriteScreenAction),
    WriteScreenFile(WriteScreenAction),
    WriteSelectionFile(WriteScreenAction),
    ReloadConfig,
}

/// The split direction of a `new_split` keybind: `auto` splits right.
pub open spec fn spec_new_split_direction(d: NewSplitDirection) -> SplitDirection {
    match d {
        NewSplitDirection::Right | NewSplitDirection::Auto => SplitDirection::Right,
        NewSplitDirection::Down => SplitDirection::Down,
        NewSplitDirection::Left => SplitDirection::Left,
        NewSplitDirection::Up => SplitDirection::Up,
    }
}

/// The split action of a `goto_split` keybind.
pub open spec fn spec_goto_split(d: SplitFocusDirection) -> SplitAction {
    match d {
        SplitFocusDirection::Previous => SplitAction::GotoAdjacent(Sequential::Previous),
        SplitFocusDirection::Next => SplitAction::GotoAdjacent(Sequential::Next),
        SplitFocusDirection::Up => SplitAction::GotoSplit(SplitDirection::Up),
        SplitFocusDirection::Down => SplitAction::GotoSplit(SplitDirection::Down),
        SplitFocusDirection::Left => SplitAction::GotoSplit(SplitDirection::Left),
        SplitFocusDirection::Right => SplitAction::GotoSplit(SplitDirection::Right),
    }
}

/// The direction of a `resize_split` keybind.
pub open spec fn spec_resize_direction(d: SplitResizeDirection) -> SplitDirection {
    match d {
        SplitResizeDirection::Up => SplitDirection::Up,
        SplitResizeDirection::Down => SplitDirection::Down,
        SplitResizeDirection::Left => SplitDirection::Left,
        SplitResizeDirection::Right => SplitDirection::Right,
    }
}

/// What a resolved chord does, or `None` when this dispatcher does not
/// perform it (it then falls through to the menu / key encoder). `end_search`
/// is only performed while a search is open, so a plain Escape still reaches
/// the pty; `close_tab` only for the current tab.
pub open spec fn spec_chord_command(action: KeybindAction, search_active: bool) -> Option<ChordCommand> {
    match action {
        KeybindAction::PreviousTab => Some(ChordCommand::Tab(TabAction::PreviousTab)),
        KeybindAction::NextTab => Some(ChordCommand::Tab(TabAction::NextTab)),
        KeybindAction::LastTab => Some(ChordCommand::Tab(TabAction::LastTab)),
        KeybindAction::GotoTab(n) => Some(ChordCommand::Tab(TabAction::GotoTab(n))),
        KeybindAction::NewSplit(d) => Some(ChordCommand::Split(SplitAction::NewSplit(spec_new_split_direction(d)))),
        KeybindAction::GotoSplit(d) => Some(ChordCommand::Split(spec_goto_split(d))),
        KeybindAction::ResizeSplit(d) => Some(ChordCommand::Split(SplitAction::ResizeSplit(spec_resize_direction(d)))),
        KeybindAction::ToggleSplitZoom => Some(ChordCommand::Split(SplitAction::ToggleZoom)),
        KeybindAction::EqualizeSplits => Some(ChordCommand::Split(SplitAction::EqualizeSplits)),
        KeybindAction::StartSearch => Some(ChordCommand::Search(SearchAction::Start)),
        KeybindAction::NavigateSearch(NavigateSearch::Next) => Some(ChordCommand::Search(SearchAction::Next)),
        KeybindAction::NavigateSearch(NavigateSearch::Previous) => Some(ChordCommand::Search(SearchAction::Previous)),
        KeybindAction::EndSearch => if search_active { Some(ChordCommand::Search(SearchAction::End)) } else { None },
        KeybindAction::ScrollToTop => Some(ChordCommand::Scroll(ScrollTo::Top)),
        KeybindAction::ScrollToBottom => Some(ChordCommand::Scroll(ScrollTo::Bottom)),
        KeybindAction::ScrollPageUp => Some(ChordCommand::Scroll(ScrollTo::PageUp)),
        KeybindAction::ScrollPageDown => Some(ChordCommand::Scroll(ScrollTo::PageDown)),
        KeybindAction::ScrollPageLines(n) => Some(ChordCommand::Scroll(ScrollTo::Lines(n))),
        KeybindAction::ScrollPageFractional => Some(ChordCommand::Scroll(ScrollTo::Fraction)),
        KeybindAction::CopyToClipboard => Some(ChordCommand::CopySelection),
        KeybindAction::PasteFromClipboard => Some(ChordCommand::Paste),
        KeybindAction::IncreaseFontSize => Some(ChordCommand::FontSize(FontStep::Up)),
        KeybindAction::DecreaseFontSize => Some(ChordCommand::FontSize(FontStep::Down)),
        KeybindAction::ResetFontSize => Some(ChordCommand::FontSize(FontStep::Reset)),
        KeybindAction::NewWindow => Some(ChordCommand::NewWindow),
        KeybindAction::NewTab => Some(ChordCommand::NewTab),
        KeybindAction::CloseSurface => Some(ChordCommand::CloseFocusedSurface),
        KeybindAction::CloseTab(CloseTabMode::This) => Some(ChordCommand::CloseTab),
        KeybindAction::CloseTab(_) => None,
        KeybindAction::ToggleQuickTerminal => Some(ChordCommand::ToggleQuickTerminal),
        KeybindAction::ToggleFullscreen => Some(ChordCommand::ToggleFullscreen),
        KeybindAction::WriteScrollbackFile(w) => Some(ChordCommand::WriteScrollbackFile(w)),
        KeybindAction::WriteScreenFile(w) => Some(ChordCommand::WriteScreenFile(w)),
        KeybindAction::WriteSelectionFile(w) => Some(ChordCommand::WriteSelectionFile(w)),
        KeybindAction::ReloadConfig => Some(ChordCommand::ReloadConfig),
        KeybindAction::Other => None,
    }
}

/// Map a resolved keybind action onto the tab/split/search/scroll/clipboard/
/// font/window handlers. `None` means the chord is not performed here and
/// should fall through (menu actions, byte actions, an `end_search` with no
/// search open, `close_tab` for other tabs); `Some` means it is performed and
/// consumed, whether or not it changes anything.
pub fn perform_keybind_chord(action: KeybindAction, search_active: bool) -> (r: Option<ChordCommand>)
    ensures
        r == spec_chord_command(action, search_active),
{
    match action {
        KeybindAction::PreviousTab => Some(ChordCommand::Tab(TabAction::PreviousTab)),
        KeybindAction::NextTab => Some(ChordCommand::Tab(TabAction::NextTab)),
        KeybindAction::LastTab => Some(ChordCommand::Tab(TabAction::LastTab)),
        KeybindAction::GotoTab(n) => Some(ChordCommand::Tab(TabAction::GotoTab(n))),
        KeybindAction::NewSplit(d) => {
            let dir = match d {
                NewSplitDirection::Right | NewSplitDirection::Auto => SplitDirection::Right,
                NewSplitDirection::Down => SplitDirection::Down,
                NewSplitDirection::Left => SplitDirection::Left,
                NewSplitDirection::Up => SplitDirection::Up,
            };
            Some(ChordCommand::Split(SplitAction::NewSplit(dir)))
        },
        KeybindAction::GotoSplit(d) => {
            let sa = match d {
                SplitFocusDirection::Previous => SplitAction::GotoAdjacent(Sequential::Previous),
                SplitFocusDirection::Next => SplitAction::GotoAdjacent(Sequential::Next),
                SplitFocusDirection::Up => SplitAction::GotoSplit(SplitDirection::Up),
                SplitFocusDirection::Down => SplitAction::GotoSplit(SplitDirection::Down),
                SplitFocusDirection::Left => SplitAction::GotoSplit(SplitDirection::Left),
                SplitFocusDirection::Right => SplitAction::GotoSplit(SplitDirection::Right),
            };
            Some(ChordCommand::Split(sa))
        },
        KeybindAction::ResizeSplit(d) => {
            let dir = match d {
                SplitResizeDirection::Up => SplitDirection::Up,
                SplitResizeDirection::Down => SplitDirection::Down,
                SplitResizeDirection::Left => SplitDirection::Left,
                SplitResizeDirection::Right => SplitDirection::Right,
            };
            Some(ChordCommand::Split(SplitAction::ResizeSplit(dir)))
        },
        KeybindAction::ToggleSplitZoom => Some(ChordCommand::Split(SplitAction::ToggleZoom)),
        KeybindAction::EqualizeSplits => Some(ChordCommand::Split(SplitAction::EqualizeSplits)),
        KeybindAction::StartSearch => Some(ChordCommand::Search(SearchAction::Start)),
        KeybindAction::NavigateSearch(NavigateSearch::Next) => Some(ChordCommand::Search(SearchAction::Next)),
        KeybindAction::NavigateSearch(NavigateSearch::Previous) => Some(ChordCommand::Search(SearchAction::Previous)),
        KeybindAction::EndSearch => {
            if search_active {
                Some(ChordCommand::Search(SearchAction::End))
            } else {
                None
            }
        },
        KeybindAction::ScrollToTop => Some(ChordCommand::Scroll(ScrollTo::Top)),
        KeybindAction::ScrollToBottom => Some(ChordCommand::Scroll(ScrollTo::Bottom)),
        KeybindAction::ScrollPageUp => Some(ChordCommand::Scroll(ScrollTo::PageUp)),
        KeybindAction::ScrollPageDown => Some(ChordCommand::Scroll(ScrollTo::PageDown)),
        KeybindAction::ScrollPageLines(n) => Some(ChordCommand::Scroll(ScrollTo::Lines(n))),
        KeybindAction::ScrollPageFractional => Some(ChordCommand::Scroll(ScrollTo::Fraction)),
        KeybindAction::CopyToClipboard => Some(ChordCommand::CopySelection),
        KeybindAction::PasteFromClipboard => Some(ChordCommand::Paste),
        KeybindAction::IncreaseFontSize => Some(ChordCommand::FontSize(FontStep::Up)),
        KeybindAction::DecreaseFontSize => Some(ChordCommand::FontSize(FontStep::Down)),
        KeybindAction::ResetFontSize => Some(ChordCommand::FontSize(FontStep::Reset)),
        KeybindAction::NewWindow => Some(ChordCommand::NewWindow),
        KeybindAction::NewTab => Some(ChordCommand::NewTab),
        KeybindAction::CloseSurface => Some(ChordCommand::CloseFocusedSurface),
        KeybindAction::CloseTab(CloseTabMode::This) => Some(ChordCommand::CloseTab),
        KeybindAction::CloseTab(_) => None,
        KeybindAction::ToggleQuickTerminal => Some(ChordCommand::ToggleQuickTerminal),
        KeybindAction::ToggleFullscreen => Some(ChordCommand::ToggleFullscreen),
        KeybindAction::WriteScrollbackFile(w) => Some(ChordCommand::WriteScrollbackFile(w)),
        KeybindAction::WriteScreenFile(w) => Some(ChordCommand::WriteScreenFile(w)),
        KeybindAction::WriteSelectionFile(w) => Some(ChordCommand::WriteSelectionFile(w)),
        KeybindAction::ReloadConfig => Some(ChordCommand::ReloadConfig),
        KeybindAction::Other => None,
    }
}

/// A `new_split` keybind splits in the direction it names (`auto` splits
/// right), so the four named directions give four different splits; a
/// `goto_split` or `resize_split` keybind likewise acts in the direction it
/// names, and `goto_split:previous` / `next` walk the panes in order.
pub proof fn lemma_split_chords_go_where_named(search_active: bool)
    ensures
        spec_chord_command(KeybindAction::NewSplit(NewSplitDirection::Right), search_active)
            == Some(ChordCommand::Split(SplitAction::NewSplit(SplitDirection::Right))),
        spec_chord_command(KeybindAction::NewSplit(NewSplitDirection::Down), search_active)
            == Some(ChordCommand::Split(SplitAction::NewSplit(SplitDirection::Down))),
        spec_chord_command(KeybindAction::NewSplit(NewSplitDirection::Left), search_active)
            == Some(ChordCommand::Split(SplitAction::NewSplit(SplitDirection::Left))),
        spec_chord_command(KeybindAction::NewSplit(NewSplitDirection::Up), search_active)
            == Some(ChordCommand::Split(SplitAction::NewSplit(SplitDirection::Up))),
        spec_chord_command(KeybindAction::NewSplit(NewSplitDirection::Auto), search_active)
            == Some(ChordCommand::Split(SplitAction::NewSplit(SplitDirection::Right))),
        forall|a: NewSplitDirection, b: NewSplitDirection|
            a != NewSplitDirection::Auto && b != NewSplitDirection::Auto && a != b ==> #[trigger] spec_chord_command(
                KeybindAction::NewSplit(a),
                search_active,
            ) != #[trigger] spec_chord_command(KeybindAction::NewSplit(b), search_active),
        spec_chord_command(KeybindAction::GotoSplit(SplitFocusDirection::Up), search_active)
            == Some(ChordCommand::Split(SplitAction::GotoSplit(SplitDirection::Up))),
        spec_chord_command(KeybindAction::GotoSplit(SplitFocusDirection::Down), search_active)
            == Some(ChordCommand::Split(SplitAction::GotoSplit(SplitDirection::Down))),
        spec_chord_command(KeybindAction::GotoSplit(SplitFocusDirection::Left), search_active)
            == Some(ChordCommand::Split(SplitAction::GotoSplit(SplitDirection::Left))),
        spec_chord_command(KeybindAction::GotoSplit(SplitFocusDirection::Right), search_active)
            == Some(ChordCommand::Split(SplitAction::GotoSplit(SplitDirection::Right))),
        spec_chord_command(KeybindAction::GotoSplit(SplitFocusDirection::Previous), search_active)
            == Some(ChordCommand::Split(SplitAction::GotoAdjacent(Sequential::Previous))),
        spec_chord_command(KeybindAction::GotoSplit(SplitFocusDirection::Next), search_active)
            == Some(ChordCommand::Split(SplitAction::GotoAdjacent(Sequential::Next))),
        spec_chord_command(KeybindAction::ResizeSplit(SplitResizeDirection::Up), search_active)
            == Some(ChordCommand::Split(SplitAction::ResizeSplit(SplitDirection::Up))),
        spec_chord_command(KeybindAction::ResizeSplit(SplitResizeDirection::Down), search_active)
            == Some(ChordCommand::Split(SplitAction::ResizeSplit(SplitDirection::Down))),
        spec_chord_command(KeybindAction::ResizeSplit(SplitResizeDirection::Left), search_active)
            == Some(ChordCommand::Split(SplitAction::ResizeSplit(SplitDirection::Left))),
        spec_chord_command(KeybindAction::ResizeSplit(SplitResizeDirection::Right), search_active)
            == Some(ChordCommand::Split(SplitAction::ResizeSplit(SplitDirection::Right))),
{
}

/// Tab, search, scroll and font chords perform the step they name; the tab
/// chords carry their tab number through unchanged and a line scroll its
/// line count.
pub proof fn lemma_chords_perform_what_they_name(search_active: bool, n: usize, lines: i32)
    ensures
        spec_chord_command(KeybindAction::NextTab, search_active) == Some(ChordCommand::Tab(TabAction::NextTab)),
        spec_chord_command(KeybindAction::PreviousTab, search_active) == Some(ChordCommand::Tab(TabAction::PreviousTab)),
        spec_chord_command(KeybindAction::LastTab, search_active) == Some(ChordCommand::Tab(TabAction::LastTab)),
        spec_chord_command(KeybindAction::GotoTab(n), search_active) == Some(ChordCommand::Tab(TabAction::GotoTab(n))),
        spec_chord_command(KeybindAction::StartSearch, search_active) == Some(ChordCommand::Search(SearchAction::Start)),
        spec_chord_command(KeybindAction::NavigateSearch(NavigateSearch::Next), search_active)
            == Some(ChordCommand::Search(SearchAction::Next)),
        spec_chord_command(KeybindAction::NavigateSearch(NavigateSearch::Previous), search_active)
            == Some(ChordCommand::Search(SearchAction::Previous)),
        spec_chord_command(KeybindAction::EndSearch, search_active) == (if search_active {
            Some(ChordCommand::Search(SearchAction::End))
        } else {
            None
        }),
        spec_chord_command(KeybindAction::ScrollToTop, search_active) == Some(ChordCommand::Scroll(ScrollTo::Top)),
        spec_chord_command(KeybindAction::ScrollToBottom, search_active) == Some(ChordCommand::Scroll(ScrollTo::Bottom)),
        spec_chord_command(KeybindAction::ScrollPageUp, search_active) == Some(ChordCommand::Scroll(ScrollTo::PageUp)),
        spec_chord_command(KeybindAction::ScrollPageDown, search_active)
            == Some(ChordCommand::Scroll(ScrollTo::PageDown)),
        spec_chord_command(KeybindAction::ScrollPageLines(lines), search_active)
            == Some(ChordCommand::Scroll(ScrollTo::Lines(lines))),
        spec_chord_command(KeybindAction::IncreaseFontSize, search_active) == Some(ChordCommand::FontSize(FontStep::Up)),
        spec_chord_command(KeybindAction::DecreaseFontSize, search_active) == Some(ChordCommand::FontSize(FontStep::Down)),
        spec_chord_command(KeybindAction::ResetFontSize, search_active) == Some(ChordCommand::FontSize(FontStep::Reset)),
        spec_chord_command(KeybindAction::CopyToClipboard, search_active) == Some(ChordCommand::CopySelection),
        spec_chord_command(KeybindAction::PasteFromClipboard, search_active) == Some(ChordCommand::Paste),
        spec_chord_command(KeybindAction::CloseTab(CloseTabMode::This), search_active) == Some(ChordCommand::CloseTab),
        spec_chord_command(KeybindAction::CloseTab(CloseTabMode::Other), search_active) is None,
        spec_chord_command(KeybindAction::CloseTab(CloseTabMode::Right), search_active) is None,
        spec_chord_command(KeybindAction::Other, search_active) is None,
{
}

/// While the search field is being edited only a single, exact search chord
/// is performed (start / next / previous, and end while a search is open);
/// everything else falls through to the text field.
pub open spec fn spec_search_field_chord(actions: Seq<KeybindAction>, search_active: bool) -> Option<SearchAction> {
    if actions.len() != 1 {
        None
    } else {
        match actions[0] {
            KeybindAction::StartSearch => Some(SearchAction::Start),
            KeybindAction::NavigateSearch(NavigateSearch::Next) => Some(SearchAction::Next),
            KeybindAction::NavigateSearch(NavigateSearch::Previous) => Some(SearchAction::Previous),
            KeybindAction::EndSearch => if search_active { Some(SearchAction::End) } else { None },
            _ => None,
        }
    }
}

/// The search action a chord performs while the search field is being
/// edited (`None`: the chord falls through to the field editor, so it keeps
/// its own copy/paste and the system text bindings).
pub fn handle_search_field_chord(actions: &Vec<KeybindAction>, search_active: bool) -> (r: Option<SearchAction>)
    ensures
        r == spec_search_field_chord(actions@, search_active),
{
    if actions.len() != 1 {
        return None;
    }
    match actions[0] {
        KeybindAction::StartSearch => Some(SearchAction::Start),
        KeybindAction::NavigateSearch(NavigateSearch::Next) => Some(SearchAction::Next),
        KeybindAction::NavigateSearch(NavigateSearch::Previous) => Some(SearchAction::Previous),
        KeybindAction::EndSearch => if search_active { Some(SearchAction::End) } else { None },
        _ => None,
    }
}

/// In the search field a single search chord performs the search step it
/// names (`navigate_search:next` the next match, `previous` the previous
/// one), the same step the chord dispatcher gives for it; any other chord,
/// or a chained binding, falls through to the field.
pub proof fn lemma_search_field_chords_do_what_they_name(a: KeybindAction, actions: Seq<KeybindAction>, search_active: bool)
    ensures
        spec_search_field_chord(seq![KeybindAction::NavigateSearch(NavigateSearch::Next)], search_active)
            == Some(SearchAction::Next),
        spec_search_field_chord(seq![KeybindAction::NavigateSearch(NavigateSearch::Previous)], search_active)
            == Some(SearchAction::Previous),
        spec_search_field_chord(seq![KeybindAction::StartSearch], search_active) == Some(SearchAction::Start),
        spec_search_field_chord(seq![KeybindAction::EndSearch], search_active) == (if search_active {
            Some(SearchAction::End)
        } else {
            None
        }),
        spec_search_field_chord(seq![a], search_active) matches Some(sa) ==> spec_chord_command(a, search_active)
            == Some(ChordCommand::Search(sa)),
        actions.len() != 1 ==> spec_search_field_chord(actions, search_active) is None,
{
}

/// How one resolved keybind action is carried out.
#[derive(Clone, Copy, Debug, PartialEq, Eq, Structural)]
pub enum Dispatch {
    /// A byte action (`text:` / `esc:` / `csi:`): snap the pane to the live
    /// area and write its bytes to the pty.
    SendBytes,
    /// A chord handled by the controller.
    Command(ChordCommand),
}

/// Dispatch one resolved action: byte actions (`has_bytes`) write their
/// bytes; everything else goes through the chord dispatcher. `None` when it
/// is not performed here.
pub fn dispatch_keybind_action(action: KeybindAction, has_bytes: bool, search_active: bool) -> (r: Option<Dispatch>)
    ensures
        r == (if has_bytes {
            Some(Dispatch::SendBytes)
        } else {
            match spec_chord_command(action, search_active) {
                Some(c) => Some(Dispatch::Command(c)),
                None => None,
            }
        }),
{
    if has_bytes {
        return Some(Dispatch::SendBytes);
    }
    match perform_keybind_chord(action, search_active) {
        Some(c) => Some(Dispatch::Command(c)),
        None => None,
    }
}

/// Whether a chord whose binding resolved to these actions is consumed, given
/// whether each was performed (the actions are dispatched in order): no
/// binding is not consumed; a single action is consumed exactly when it was
/// performed (so menu-scoped actions fall through to the menu); a chained
/// binding is always consumed.
pub fn keybind_chord_consumed(performed: &Vec<bool>) -> (r: bool)
    ensures
        r == (if performed@.len() == 0 {
            false
        } else if performed@.len() == 1 {
            performed@[0]
        } else {
            true
        }),
{
    if performed.len() == 0 {
        false
    } else if performed.len() == 1 {
        performed[0]
    } else {
        true
    }
}

/// One resolution step of the leader-key sequence machine for a key press:
/// the key is a leader (descend into the sequence tree with this trigger),
/// completes a binding (its actions), or matches nothing.
pub enum SeqStep<T, A> {
    Descend(T),
    Leaf(Vec<A>),
    NoMatch,
}

/// What a key press did to the leader-key sequence.
pub enum SeqOutcome<A> {
    /// A leader key: consumed, waiting for the next key.
    Descended,
    /// The sequence completed: consumed; dispatch these actions in order.
    Dispatch(Vec<A>),
    /// An unrecognized key mid-sequence: consumed and dropped.
    Aborted,
    /// Not sequence-related: the normal single-key path handles the key.
    NotSequence,
}

/// The leader-key sequence state: the leader triggers pressed so far, or
/// `None` when not in a sequence.
pub struct KeySequence<T> {
    pub path: Option<Vec<T>>,
}

/// The plain view of a sequence path.
pub open spec fn path_view<T>(p: Option<Vec<T>>) -> Option<Seq<T>> {
    match p {
        Some(v) => Some(v@),
        None => None,
    }
}

impl<T> KeySequence<T> {
    /// Not in a sequence.
    pub fn new() -> (r: KeySequence<T>)
        ensures
            r.path is None,
    {
        KeySequence { path: None }
    }

    /// Feed one resolved key press to the sequence machine (`ctrl+a>c`-style
    /// bindings). A leader key starts or extends the sequence; the completing
    /// key of a sequence ends it and hands back its actions; an unrecognized
    /// key mid-sequence aborts it (and is swallowed); outside a sequence a
    /// non-leader key is left to the normal key path.
    pub fn handle_key_sequence<A>(&mut self, step: SeqStep<T, A>) -> (r: SeqOutcome<A>)
        ensures
            match step {
                SeqStep::Descend(t) => {
                    &&& r is Descended
                    &&& path_view(final(self).path) == Some(
                        match path_view(old(self).path) {
                            Some(p) => p,
                            None => Seq::<T>::empty(),
                        }.push(t),
                    )
                },
                SeqStep::Leaf(actions) => if old(self).path is Some {
                    &&& r matches SeqOutcome::Dispatch(a) && a@ == actions@
                    &&& final(self).path is None
                } else {
                    &&& r is NotSequence
                    &&& path_view(final(self).path) == path_view(old(self).path)
                },
                SeqStep::NoMatch => if old(self).path is Some {
                    &&& r is Aborted
                    &&& final(self).path is None
                } else {
                    &&& r is NotSequence
                    &&& path_view(final(self).path) == path_view(old(self).path)
                },
            },
    {
        let in_sequence = self.path.is_some();
        match step {
            SeqStep::Descend(t) => {
                let mut p = match self.path.take() {
                    Some(v) => v,
                    None => Vec::new(),
                };
                p.push(t);
                self.path = Some(p);
                SeqOutcome::Descended
            },
            SeqStep::Leaf(actions) => {
                if in_sequence {
                    self.path = None;
                    SeqOutcome::Dispatch(actions)
                } else {
                    SeqOutcome::NotSequence
                }
            },
            SeqStep::NoMatch => {
                if in_sequence {
                    self.path = None;
                    SeqOutcome::Aborted
                } else {
                    SeqOutcome::NotSequence
                }
            },
        }
    }
}

/// A menu-bar action.
#[derive(Clone, Copy, Debug, PartialEq, Eq, Structural)]
pub enum MenuAction {
    NewWindow,
    NewTab,
    CloseTab,
    Copy,
    Paste,
    FontSizeUp,
    FontSizeDown,
    FontSizeReset,
    ShowNextTab,
    ShowPreviousTab,
    ToggleQuickTerminal,
    Quit,
}

/// What a menu action makes the controller do.
#[derive(Clone, Copy, Debug, PartialEq, Eq, Structural)]
pub enum MenuCommand {
    NewWindow,
    /// A new tab in the active tab's window group.
    NewTabInActive,
    /// Close the active tab (confirming / redirecting to tmux as needed).
    CloseActiveTab,
    CopySelection,
    Paste,
    FontSize(FontStep),
    Tab(TabAction),
    ToggleQuickTerminal,
    Quit,
    /// Nothing to act on.
    Nothing,
}

/// Dispatch a menu action against the active tab (`has_active_tab`): New
/// Tab opens a window when there is no tab to group with, Close Tab does
/// nothing without an active tab.
pub fn handle_action(action: MenuAction, has_active_tab: bool) -> (r: MenuCommand)
    ensures
        r == (match action {
            MenuAction::NewWindow => MenuCommand::NewWindow,
            MenuAction::NewTab => if has_active_tab { MenuCommand::NewTabInActive } else { MenuCommand::NewWindow },
            MenuAction::CloseTab => if has_active_tab { MenuCommand::CloseActiveTab } else { MenuCommand::Nothing },
            MenuAction::Copy => MenuCommand::CopySelection,
            MenuAction::Paste => MenuCommand::Paste,
            MenuAction::FontSizeUp => MenuCommand::FontSize(FontStep::Up),
            MenuAction::FontSizeDown => MenuCommand::FontSize(FontStep::Down),
            MenuAction::FontSizeReset => MenuCommand::FontSize(FontStep::Reset),
            MenuAction::ShowNextTab => MenuCommand::Tab(TabAction::NextTab),
            MenuAction::ShowPreviousTab => MenuCommand::Tab(TabAction::PreviousTab),
            MenuAction::ToggleQuickTerminal => MenuCommand::ToggleQuickTerminal,
            MenuAction::Quit => MenuCommand::Quit,
        }),
{
    match action {
        MenuAction::NewWindow => MenuCommand::NewWindow,
        MenuAction::NewTab => if has_active_tab { MenuCommand::NewTabInActive } else { MenuCommand::NewWindow },
        MenuAction::CloseTab => if has_active_tab { MenuCommand::CloseActiveTab } else { MenuCommand::Nothing },
        MenuAction::Copy => MenuCommand::CopySelection,
        MenuAction::Paste => MenuCommand::Paste,
        MenuAction::FontSizeUp => MenuCommand::FontSize(FontStep::Up),
        MenuAction::FontSizeDown => MenuCommand::FontSize(FontStep::Down),
        MenuAction::FontSizeReset => MenuCommand::FontSize(FontStep::Reset),
        MenuAction::ShowNextTab => MenuCommand::Tab(TabAction::NextTab),
        MenuAction::ShowPreviousTab => MenuCommand::Tab(TabAction::PreviousTab),
        MenuAction::ToggleQuickTerminal => MenuCommand::ToggleQuickTerminal,
        MenuAction::Quit => MenuCommand::Quit,
    }
}

} // verus!

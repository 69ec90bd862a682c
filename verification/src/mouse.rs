use vstd::prelude::*;
use crate::session::SplitDirection;
use crate::tmux::MouseAction;

verus! {

/// Whether a press opens the link under the pointer: a left-button press
/// with command held (when a link is found there, the press is consumed).
pub fn click_opens_link(action: MouseAction, left: bool, command: bool) -> (r: bool)
    ensures
        r == (action == MouseAction::Press && left && command),
{
    match action {
        MouseAction::Press => left && command,
        _ => false,
    }
}

/// Where a left-button event of an ordinary pane goes.
#[derive(Clone, Copy, Debug, PartialEq, Eq, Structural)]
pub enum LeftButtonRoute {
    /// Start (or continue) a selection gesture at the press.
    SelectionPress,
    /// Extend the selection to the pointer (option: rectangular).
    SelectionDrag,
    /// End the drag (copying when copy-on-select is on).
    SelectionRelease,
    /// The program captured the press: clear the selection and the click
    /// sequence.
    ClearForReport,
    /// Nothing selection-related.
    Nothing,
}

/// Whether the left button drives a local selection: always when the
/// program does not track the mouse, else only with shift held and shift not
/// captured by the program.
pub open spec fn spec_selection_allowed(reporting: bool, shift: bool, shift_captured: bool) -> bool {
    !reporting || (shift && !shift_captured)
}

/// Where a left-button event goes: see `left_button_route`.
pub open spec fn spec_left_button_route(
    action: MouseAction,
    reporting: bool,
    shift: bool,
    shift_captured: bool,
    button_down: bool,
) -> LeftButtonRoute {
    if spec_selection_allowed(reporting, shift, shift_captured) {
        match action {
            MouseAction::Press => LeftButtonRoute::SelectionPress,
            MouseAction::Motion => if button_down {
                LeftButtonRoute::SelectionDrag
            } else {
                LeftButtonRoute::Nothing
            },
            MouseAction::Release => LeftButtonRoute::SelectionRelease,
        }
    } else if action == MouseAction::Press {
        LeftButtonRoute::ClearForReport
    } else {
        LeftButtonRoute::Nothing
    }
}

/// Route a left-button event of an ordinary pane (the event is then also
/// offered to the program's mouse reporting). `button_down` is the
/// button state after this event.
pub fn left_button_route(
    action: MouseAction,
    reporting: bool,
    shift: bool,
    shift_captured: bool,
    button_down: bool,
) -> (r: LeftButtonRoute)
    ensures
        r == spec_left_button_route(action, reporting, shift, shift_captured, button_down),
{
    let allowed = !reporting || (shift && !shift_captured);
    if allowed {
        match action {
            MouseAction::Press => LeftButtonRoute::SelectionPress,
            MouseAction::Motion => if button_down {
                LeftButtonRoute::SelectionDrag
            } else {
                LeftButtonRoute::Nothing
            },
            MouseAction::Release => LeftButtonRoute::SelectionRelease,
        }
    } else {
        match action {
            MouseAction::Press => LeftButtonRoute::ClearForReport,
            _ => LeftButtonRoute::Nothing,
        }
    }
}

/// Whether a shift-click continues the previous selection gesture (extends
/// it like a drag) instead of starting a new click sequence: a gesture is
/// under way, a selection exists, and the click is outside the click-repeat
/// `interval` (a quick shift-click counts towards a double/triple click
/// instead). `since_last_click` is the time since the gesture's last click,
/// if it has one.
pub fn press_continues_selection(
    shift: bool,
    click_count: usize,
    has_selection: bool,
    since_last_click: Option<u64>,
    interval: u64,
) -> (r: bool)
    ensures
        r == (shift && click_count > 0 && has_selection && !(match since_last_click {
            Some(t) => t <= interval,
            None => false,
        })),
{
    if !shift || click_count == 0 {
        return false;
    }
    let within = match since_last_click {
        Some(t) => t <= interval,
        None => false,
    };
    has_selection && !within
}

/// The granularity a click of a multi-click sequence selects.
#[derive(Clone, Copy, Debug, PartialEq, Eq, Structural)]
pub enum Behavior {
    Cell,
    Word,
    Line,
    Output,
}

/// The selection granularity of a single, double and triple click: cell,
/// word, then line, or the whole command output when control or command is
/// held.
pub fn press_behaviors(ctrl: bool, command: bool) -> (r: (Behavior, Behavior, Behavior))
    ensures
        r.0 == Behavior::Cell,
        r.1 == Behavior::Word,
        r.2 == (if ctrl || command { Behavior::Output } else { Behavior::Line }),
{
    (Behavior::Cell, Behavior::Word, if ctrl || command { Behavior::Output } else { Behavior::Line })
}

/// Whether a press that selected nothing clears the existing selection: only
/// a fresh single click does.
pub fn press_clears_selection(selected: bool, click_count: usize, has_selection: bool) -> (r: bool)
    ensures
        r == (!selected && click_count == 1 && has_selection),
{
    !selected && click_count == 1 && has_selection
}

/// Whether a drag selection is rectangular: option held, and only for
/// cell-granular drags (word/line/output selections are always linear).
pub fn drag_is_rectangular(option: bool, behavior: Behavior) -> (r: bool)
    ensures
        r == (option && behavior == Behavior::Cell),
{
    option && match behavior {
        Behavior::Cell => true,
        _ => false,
    }
}

/// The `right-click-action` setting.
#[derive(Clone, Copy, Debug, PartialEq, Eq, Structural)]
pub enum RightClickAction {
    ContextMenu,
    Paste,
    Copy,
    CopyOrPaste,
    Ignore,
}

/// A right click's direct effect.
#[derive(Clone, Copy, Debug, PartialEq, Eq, Structural)]
pub enum RightClickEffect {
    /// Paste the clipboard into the pane.
    Paste,
    /// Copy the pane's selection.
    Copy,
    /// Nothing here (`ignore`, or the context menu, shown elsewhere).
    Nothing,
}

/// The direct (non-menu) effect of a right click on a pane: `copy-or-paste`
/// copies when the pane has a selection and pastes otherwise.
pub fn right_click_direct(action: RightClickAction, has_selection: bool) -> (r: RightClickEffect)
    ensures
        r == (match action {
            RightClickAction::Paste => RightClickEffect::Paste,
            RightClickAction::Copy => RightClickEffect::Copy,
            RightClickAction::CopyOrPaste => if has_selection {
                RightClickEffect::Copy
            } else {
                RightClickEffect::Paste
            },
            RightClickAction::ContextMenu | RightClickAction::Ignore => RightClickEffect::Nothing,
        }),
{
    match action {
        RightClickAction::Paste => RightClickEffect::Paste,
        RightClickAction::Copy => RightClickEffect::Copy,
        RightClickAction::CopyOrPaste => if has_selection {
            RightClickEffect::Copy
        } else {
            RightClickEffect::Paste
        },
        RightClickAction::ContextMenu | RightClickAction::Ignore => RightClickEffect::Nothing,
    }
}

/// An item of a pane's context menu.
#[derive(Clone, Copy, Debug, PartialEq, Eq, Structural)]
pub enum ContextAction {
    Copy,
    Paste,
    SplitRight,
    SplitLeft,
    SplitDown,
    SplitUp,
    ClosePane,
}

/// What a context-menu item does to the right-clicked pane (which is focused
/// first, so splits and close act on it).
#[derive(Clone, Copy, Debug, PartialEq, Eq, Structural)]
pub enum ContextCommand {
    Copy,
    Paste,
    Split(SplitDirection),
    /// Close the pane, confirming first when a process is running.
    ClosePane,
}

/// Map a context-menu item to its command.
pub fn context_menu_command(action: ContextAction) -> (r: ContextCommand)
    ensures
        r == (match action {
            ContextAction::Copy => ContextCommand::Copy,
            ContextAction::Paste => ContextCommand::Paste,
            ContextAction::SplitRight => ContextCommand::Split(SplitDirection::Right),
            ContextAction::SplitLeft => ContextCommand::Split(SplitDirection::Left),
            ContextAction::SplitDown => ContextCommand::Split(SplitDirection::Down),
            ContextAction::SplitUp => ContextCommand::Split(SplitDirection::Up),
            ContextAction::ClosePane => ContextCommand::ClosePane,
        }),
{
    match action {
        ContextAction::Copy => ContextCommand::Copy,
        ContextAction::Paste => ContextCommand::Paste,
        ContextAction::SplitRight => ContextCommand::Split(SplitDirection::Right),
        ContextAction::SplitLeft => ContextCommand::Split(SplitDirection::Left),
        ContextAction::SplitDown => ContextCommand::Split(SplitDirection::Down),
        ContextAction::SplitUp => ContextCommand::Split(SplitDirection::Up),
        ContextAction::ClosePane => ContextCommand::ClosePane,
    }
}

/// The left button selects locally whenever the program does not track the
/// mouse, whatever shift and its capture say: a press starts a selection, a
/// drag with the button held extends it, a release ends it. While the
/// program tracks the mouse, only an uncaptured shift gives the button back
/// to the selection; otherwise the program owns it, a press merely clearing
/// the local selection, and no selection step ever happens.
pub proof fn lemma_left_button_selects_unless_program_owns_it(
    action: MouseAction,
    reporting: bool,
    shift: bool,
    shift_captured: bool,
    button_down: bool,
)
    ensures
        !reporting ==> (action == MouseAction::Press ==> spec_left_button_route(
            action,
            reporting,
            shift,
            shift_captured,
            button_down,
        ) == LeftButtonRoute::SelectionPress),
        !reporting ==> (action == MouseAction::Release ==> spec_left_button_route(
            action,
            reporting,
            shift,
            shift_captured,
            button_down,
        ) == LeftButtonRoute::SelectionRelease),
        !reporting ==> (action == MouseAction::Motion && button_down ==> spec_left_button_route(
            action,
            reporting,
            shift,
            shift_captured,
            button_down,
        ) == LeftButtonRoute::SelectionDrag),
        reporting && shift && !shift_captured ==> spec_left_button_route(
            action,
            reporting,
            shift,
            shift_captured,
            button_down,
        ) == spec_left_button_route(action, false, false, false, button_down),
        reporting && !(shift && !shift_captured) ==> spec_left_button_route(
            action,
            reporting,
            shift,
            shift_captured,
            button_down,
        ) == (if action == MouseAction::Press {
            LeftButtonRoute::ClearForReport
        } else {
            LeftButtonRoute::Nothing
        }),
        action == MouseAction::Motion && !button_down ==> spec_left_button_route(
            action,
            reporting,
            shift,
            shift_captured,
            button_down,
        ) == LeftButtonRoute::Nothing,
{
}

} // verus!

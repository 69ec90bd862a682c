//! Verified decision and formatting logic of the qwertty-term macOS host:
//! the byte sequences it writes to a pty, the window-title rules, tab
//! navigation, scrollback-viewport arithmetic, session restore, the per-tick
//! servicing of panes, mouse and keybind routing, close confirmation, and the
//! small state machines that drive the render clock, the quick terminal, the
//! resize overlay and a crashed pane's recovery.
pub mod keys;
pub mod lock;
pub mod title;
pub mod smoke;
pub mod paste;
pub mod tabs;
pub mod scroll;
pub mod session;
pub mod theme;
pub mod clock;
pub mod quickterm;
pub mod tmux;
pub mod keybind;
pub mod health;
pub mod pump;
pub mod tick;
pub mod mouse;
pub mod closing;
pub mod overlay;
pub mod files;
pub mod launch;
pub mod links;

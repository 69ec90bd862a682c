# qwertty_term

The decision logic of the qwertty-term macOS terminal host, written in Verus
and proved against its contracts: the bytes a pane writes to its pty, how
window titles are composed, tab navigation, the scrollback viewport and wheel
outcomes, session restore plans and tmux split flags, mouse, keybind and
paste routing, the per-tick servicing of panes, and the state machines behind
the render clock, the quick terminal, the resize overlay and crashed panes.

- `src/` — the verified library (one module per concern; laws are public
  `proof fn`s next to the functions they speak of).
- `tests/` — tests on concrete values.
- `app/` — thin host glue (environment, files, clock, engine locks) that
  gathers inputs for the library and carries out its decisions.

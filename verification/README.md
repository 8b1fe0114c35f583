# alacritty_tabs

Multi-tab support for a terminal window, verified with Verus.

- `src/` — the verified library:
  - `config.rs`: `TabBarConfig` and its documented defaults.
  - `color.rs`, `tab.rs`: tabs, the tab bar model, what a click on the bar hits,
    and the bar's colours derived from the terminal background.
  - `window_context.rs`: the tab lifecycle of a window (create, switch,
    next/previous, close active or background tab, title bookkeeping) as an
    abstract state `TabsView` — a logical tab list with one bar title per
    position — with one transition per operation, and the executable
    `WindowContext` proved against it.
  - `events.rs`: routing of window events (clicks on the bar never reach the
    terminal), frame and redraw decisions, and the scroll after a search starts.
  - `laws.rs`: laws of the lifecycle, on every input: switching keeps every
    tab and title in place, previous undoes next (and next undoes previous),
    stepping through all tabs comes back, closing removes one tab in place
    and never the last one, new tabs are appended with fresh identifiers, and
    switching, closing, adding and retitling keep the bar in step with the
    tabs (adopting a configured title changes only the active title).
- `app/` — unverified glue: TOML (de)serialisation of the configuration,
  fractional-pixel geometry of the bar, PTY sessions and winit events.
- `tests/` — executable tests of the library.

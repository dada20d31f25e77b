# orivo

A terminal pomodoro timer and todo list. The library under `src/` holds the
application's rules, written in Verus with their contracts proved:

- `kinds/`: pages, phases, repeat rules, key presses and their laws (page
  cycling, database identifiers that read back, the next date of a repeat).
- `date.rs`, `text.rs`: calendar arithmetic, formatting and trimming.
- `config.rs`, `timer.rs`, `states/timer.rs`: timer settings, the standalone
  countdown and the clock-anchored runtime timer, with the pomodoro cycle.
- `states/todos.rs`, `states/timer_cache.rs`: pagination of the todo list and
  the cache of today's todos and statistics.
- `models/`: todos, sessions and their statistics.
- `tabs/`, `ui/workspace.rs`, `widgets/`: key handling of the tabs, the
  two-tab workspace, the due date calendar, the repeat picker and inputs.
- `ui.rs`: parsing of typed todos and due dates, and the texts and colors of
  the timer's display components.

Each key handler returns the work it leaves to its caller (database writes,
timer commands), so that the verified state machines stay free of I/O.

`app/` is the standalone timer program around it: terminal drawing with
crossterm, key reading, saving the timer state as JSON, and logging. Its
`render.rs` holds ratatui drawing for the timer components, the tab header,
the due date calendar and the repeat picker; the tabbed workspace has no
database layer here, so the program does not drive it.

# oxker_tui

The terminal interface of a Docker container viewer, as a verified library:
the state of the container list and of the interface, what key presses and
mouse events do to them, what the events of the core change, how the frame
is laid out and what each panel says. Verus proves the contract of every
function in `src/` except the small trusted wrappers around ratatui, uuid
and std (the clock, text widths, lowercasing, layout splitting, uuid text).
Their contracts are believed, and say only what those crates' sources
show: the layout split, for one, promises one part per constraint and
nothing about where the parts go, since ratatui's solver does not fix them;
the screen and dialog layouts are stated over whatever parts it returns.

- `src/ui_state.rs`: the container list, its selection, commands, logs and
  filter; the laws on updates, removals and buffers.
- `src/gui_state.rs`: the interface state (panels, statuses, clickable
  areas, loading animation, info box).
- `src/input.rs`, `src/events.rs`, `src/ui_loop.rs`: input handling, core
  events, and the decisions of the drawing loop.
- `src/view_models.rs`, `src/main_view.rs`, `src/panels.rs`, `src/help.rs`,
  `src/layout.rs`: the frame's data, the screen plan, the panels' texts and
  sizes.
- `src/loading_state.rs`, `src/idset.rs`, `src/debug.rs`,
  `src/debug_panel.rs`, `src/mock.rs`: bookkeeping of loading operations,
  debug events, and a stand-in core.
- `app/`: the terminal program around the library (crossterm input,
  ratatui drawing, the floating point text and charts of the samples).

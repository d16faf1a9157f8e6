# kolibri_embedded_gui

A small immediate-mode GUI for embedded displays, with its logic verified by Verus.

Each frame, the application builds a `Ui`, adds widgets to it (buttons, labels, checkboxes,
toggles, sliders, combo boxes, icons, an on-screen keyboard) and hands it the current input
(`Interaction`). Widgets are placed by a `Placer` in rows, react to the input, and record what
they draw as `DrawCommand`s. Smartstates let a widget skip redrawing when its look did not
change since the previous frame.

## Layout

- `src/` — the verified library: geometry, styles, the placer and `Ui`, smartstates, the
  widgets, the widget framebuffer and the keyboard helper. Every function carries a contract;
  the laws of the library (incremental redrawing, placement within bounds, sliders keeping their
  value in range, ...) are public proof functions next to the code they are about.
- `app/` — the embedded-graphics side: a `Renderer` that replays the drawing commands onto a
  `DrawTarget` (through the widget framebuffer and a popup buffer), full-screen UIs, geometry
  conversions, and the keyboard over a `heapless::String`.
- `tests/` — tests of the library.

## Limits

The layout arithmetic is proved free of overflow within fixed ranges: a widget, row or bounds
extent is at most 2^20 pixels (`MAX_EXTENT`), layout positions stay below 2^30 (`MAX_LAYOUT`)
and a UI's origin lies within 2^29 of the display origin (`MAX_ORIGIN`). Functions that add
widgets ask for room within these ranges (`Placer::room`).

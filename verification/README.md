# dear_mirl_gui

A registry-based, retained-mode GUI library for `mirl`, with its core verified by Verus.

- `src/` is the verified library: focus levels and how module outputs combine, the module
  registry with its image cache, windows (dragging, resizing, collapsing, the focus pass of a
  frame), the window manager's focus pass, layout decorations, and the text, number, check box
  and selection widgets with their editing operations.
- `app/` is the runtime around it: the global registry and formatting, the module trait,
  drawing with `mirl`, text measuring with `fontdue`, and the widgets that work in floating point.
- `tests/` exercises the library.

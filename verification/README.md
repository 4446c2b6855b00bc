# MagniDraw

A small 2D game and UI library, in two parts.

- `src/` is the verified core, checked by Verus. It holds what the library
  decides: incremental element IDs (`ui::ids`), searching an element tree by ID
  (`ui::tree`), controller buttons held across frames (`input`), batching of
  draw data by z-index and material (`batch`), decoding sprite images and the
  layout of their texture upload (`sprite`), and the input handling of each UI
  widget as a state machine that returns what the widget should do
  (`ui::button`, `ui::toggle`, `ui::radio`, `ui::separator`, `ui::textinput`,
  `ui::label`), and which bytes of a laid-out line a text selection covers
  (`ui::selection`).
- `app/` is the engine around it: the window and GPU (through `keydraw` and
  `wgpu`), text shaping (`glyphon`), keyboard, mouse and gamepad input
  (`winit_input_helper`, `gilrs`), the clipboard, and every computation on
  positions, sizes and colors, which are `f32`.

Tests of the core are under `tests/`.

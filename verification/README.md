# rdev (macOS input logic, verified)

The macOS keyboard and event-simulation logic of `rdev`, written in Verus.

- `src/` is the verified library:
  - `modifiers.rs`: the `UCKeyTranslate` modifier-state bits and their laws;
  - `keycodes.rs`: macOS virtual keycodes;
  - `types.rs`: keys, buttons, events, keyboard types, and the key-to-keycode table;
  - `keyboard.rs`: the `Keyboard` state used to turn key events into text,
    NSEvent-flag conversion, and the handling of a layout translation's result;
  - `simulate.rs`: modifier and dead-key tracking of a simulated input stream,
    the planning of the CoreGraphics events it posts, the Fn-key flag
    workaround and the user-data tags.
- `app/` performs what the library plans: Carbon layout translation,
  CoreGraphics event creation and posting, and the process-wide tags.
  It builds on macOS only.
- `tests/` runs the library on concrete values.

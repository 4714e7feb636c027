# baseview (verified core)

The decision-making core of a small windowing library, written in Verus and
proved against its contracts.

- `src/keyboard.rs`: key codes, key values, modifiers and key locations.
- `src/x11/keyboard.rs`: X11 hardware keycodes to key codes, key codes to
  key values under a hardcoded US layout, X11 modifier masks to modifiers,
  and whole X11 key events to keyboard events, with the laws they keep.
- `src/macos/view.rs`: the state machine that decides when the window
  handler of a macOS view runs: events that arrive while it is busy wait and
  are handed out, in order, before it is freed; frames requested meanwhile
  are kept; closing hands out
  the closing event, then closes the window and stops the application.
- `src/macos/window.rs`, `src/macos/callbacks.rs`, `src/macos/cursor.rs`:
  focus, drag-and-drop, tracking-area and cursor decisions of the macOS view.
- `src/gl/`: the OpenGL configuration and the AppKit pixel format it gives.
- `src/clipboard.rs`: which Linux selection copy and paste use.

`app/` holds the native side: the AppKit classes, the `arboard` clipboard,
the conversion of X11 events and of key values to `keyboard-types`, and the
types that carry floating-point sizes and positions.

# keymacro

The verified core of a keyboard and gamepad macro tool for Windows.

Macros cannot press keys on a physical controller. They play on a virtual one,
which mirrors the physical controller except for two things: the keys that start
a hold loop are taken out, and the keys that macros hold down are put in.

- `src/gamepad/buttons.rs`: key names and XInput masks.
- `src/gamepad/edges.rs`: press and release events from two readings.
- `src/gamepad/output.rs`: the keys that macros hold, suppression, the report of
  the virtual controller.
- `src/gamepad/listener.rs`: the polling loop as a state machine.
- `src/config.rs`, `src/visual_editor.rs`, `src/visual_editor/macro_list.rs`: the
  macros of a configuration and the rules of the list that edits them.
- `src/text.rs`: text helpers, with the two facts about `str` that are assumed.
- `app/`: XInput, ViGEmBus, the listener thread and the drawing of the list.

Two things come from the rest of the program and are handed in: the mapping of a
key name to its canonical name, and whether a configuration writes to a gamepad.

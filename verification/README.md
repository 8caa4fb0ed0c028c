# SayWrite

SayWrite is a Linux dictation app: press a shortcut, speak, and the cleaned-up text is
typed into the focused field, or copied to the clipboard where typing is not available.

## Layout

- `src/` is the library, verified with Verus. It holds the decisions of the app:
  transcript cleanup, settings and their repair, the dictation controller (which toggles
  are refused, what each step reports), the choice of insertion backend, the IBus and
  GlobalShortcuts protocol logic, the GNOME keybinding, the runtime overview, and what the
  windows show after each event. Every public function states its result in its contract;
  the properties that span several functions are public proof functions (`lemma_*`).
- `app/` is the program around it: GTK windows, processes, files, D-Bus and the network.
  `saywrite` starts the app; `saywrite --host` runs the host daemon.
- `tests/` runs the library on concrete values.

The outside crates the library calls (`dirs`, `serde_json`) are reached through a few
trusted wrappers, each with a doc comment that says what its contract assumes.

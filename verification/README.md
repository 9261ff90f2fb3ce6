# Sleepy Cat

Sleepy Cat is a local prompt library for the desktop: pick a saved prompt and
it is filled into the input of another application and, unless insertion only
was chosen, submitted.

The repository has two parts.

- `src/` is the library `sleepy_cat`, verified with Verus. It holds the
  decisions of the app that do not rest on floating-point geometry: which
  application a prompt may go to and whether the captured target is still
  the same process, the order of a delivery (recover, copy, verify, paste,
  confirm, submit) and where it must stop, the stage diagnostics of a
  delivery, how the composer of a target is chosen among scored candidates,
  the parsers of `lsappinfo` and `ps` output, the AppleScript texts, the
  state of the floating button and its popover, and the reading and patching
  of the settings document. Calls into the system and into outside crates
  reach the library as closures or through small trusted wrappers whose
  contracts are stated in their doc comments.
- `app/` is the Tauri application around it: commands, windows, the menu bar
  item, the settings file, and the macOS calls (accessibility, Quartz events,
  `osascript`, process information). Floating-point geometry of windows and
  frames, and the scores and frame checks built on it, live there too.

`tests/` runs the library on concrete inputs, with the outside crates linked.

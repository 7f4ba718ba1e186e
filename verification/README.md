# Clipboard applet

A tray applet for the Wayland primary and regular selections: it previews both, copies one to the
other, exchanges and clears them, keeps a stack of texts, and opens texts in an editor.

The library under `src/` holds every decision the applet makes, with contracts that Verus proves.
A procedure never touches the desktop itself: it asks for one read, write, clearing or
notification at a time and is resumed with the reply (`exchange.rs`). `laws.rs` and `tray_laws.rs`
state what follows for whole runs, for instance that a switch that fails leaves both selections as
they were if the primary one can be restored, and that hidden content does not show in the menu.

| Modules | Subject |
|---|---|
| `clipboard`, `deadline` | what a read of a selection finds |
| `exchange`, `transfer`, `action` | copying, exchanging and clearing selections |
| `stack` | the stack of texts |
| `editor`, `editing` | editing a selection or a stacked text |
| `tray`, `notification`, `session` | menu, previews, notifications, events |
| `clipboard_monitor` | watching the selections for changes |
| `debug_log` | the debug log, which never tells what a text says |
| `cli`, `config`, `instance`, `path`, `text` | command line, configuration, lock file, text |

`app/` is the program around the library: it talks to the compositor, the notification service, the
file system and the editor.

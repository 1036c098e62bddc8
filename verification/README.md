# oxide

A dual-panel terminal file manager in the style of Midnight Commander. The decisions it makes
are written in Verus and proved against their contracts; a thin program drives the terminal.

## Layout

- `src/` — the verified library.
  - `panel.rs` — a panel's listing, cursor, scrolling (one or two columns), marks, the items a
    copy/move/delete acts on, entering directories and re-reading with the selection restored.
  - `file_ops.rs` — directory entries, path joining, and the listing orders (".." first, then
    optionally directories, then by name, size or time, ascending or descending) as a proved
    sort.
  - `text_input.rs` — the single-line text field and the key handling of one-field dialogs.
  - `find_dialog.rs` — Find file: glob matching, content matching, the dialog's key handling,
    applying the search worker's messages, grouping results by folder.
  - `events.rs` — actions handed to the main loop, routing of keys by what is open, and the key
    and mouse handling of the panels (wheel, clicks on entries and on the menu bar, clicks on the
    choices of the modal dialogs), the command line and the confirmation dialogs.
  - `dialog_layout.rs` — the centred box and content area shared by the small dialogs.
  - `copy_flow.rs` — the decisions of a running copy or move: files that already exist at the
    target, and the answers of the "File exists" and copy error dialogs.
  - `dialogs/` — the modal dialogs (Actions, Create directory, New file, Archive, error text
    layout, size info, settings, Help scrolling and layout, the right-click panel menu, the
    rename/attributes dialog with its keys and the steps that apply it, marking by pattern,
    panel settings overlay).
  - `subshell.rs` — the byte-level relay of the toggle shell: spotting Ctrl+O and Ctrl+X then O
    in every terminal encoding, the command-completion marker, `sudo` prompt detection and the
    early return for interactive root shells, shell quoting.
  - `panel_backend.rs` — locations on disk or inside a ZIP archive: listing a directory inside
    an archive and reading a member (through the zip crate), the steps that copy items out of
    an archive, and writing archives in memory: a new one from members, an existing one
    without deleted items, or an existing one with a file written into it.
  - `editor.rs`, `ui.rs`, `settings.rs`, `keys.rs`, `strutil.rs`, `app_state.rs` — editor
    language choice and Find next, menu, entry labels and status texts, settings defaults and
    paths, input events, text primitives, and the application state.
- `tests/` — tests of the library on concrete values.
- `app/` — the program: terminal setup and drawing (ratatui, crossterm), reading directories,
  the Find file and size worker threads (walkdir), settings on disk (serde), reading and writing
  ZIP files, copying item by item as the library decides (with a progress box that Esc stops),
  and running commands.

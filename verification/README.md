# dd_emailforge

A terminal-UI email template builder: edit a `template.json` in a TUI,
export strict MJML and compile HTML with the official MJML 5 compiler.

The project is split in two:

- `src/` is the library, written in Verus and verified: the template model
  and its mathematical view, the structural edits on the body tree (delete,
  duplicate, reorder, insert, columns and their equal width split, undo),
  the forms that edit each row, the starter templates, the details pane,
  the editor's key and mouse dispatch, the modal dialogs, the image picker,
  the export and preview decisions, and the pure helpers behind storage,
  preview serving and MJML discovery.  Every public function states what it
  returns in its contract; the laws of the library (what one call undoes of
  another, what every operation keeps) are public proof functions named
  `law_*`.
- `app/` is ordinary Rust around it: the command line, file and network
  I/O, running `mjml`, the preview HTTP server, and painting the TUI with
  ratatui and crossterm.

Usage:

```bash
dd_emailforge tui [path/to/template.json | path/to/folder/]
dd_emailforge validate path/to/folder/
dd_emailforge show path/to/template.json
```

TUI: `F1` help · `F2` theme · `F3` validate · `p` preview · `Shift+E`
export · `s` save · `Ctrl+Q` quit (confirms if unsaved).

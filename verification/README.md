# Iskra

Sermon planning for preachers who work from structured notes: single-line
ideas grouped into movements, tagged, reordered, and exported as a Typst
outline.

- `src/` is the library, verified with Verus: the sermon model and its
  undoable commands, the editor's selection and drag-and-drop commands, the
  liturgical calendar with the Revised Common, Roman Catholic and Narrative
  lectionaries, scripture citations, the export body, library search and tag
  censuses, the command palette's text, and the decisions of the git backup
  (what to run next and how to read git's answers).
- `app/` is the command-line shell around it: settings and sermon files in
  TOML, scanning the sermons folder, running git.
- `tests/` runs the library on concrete cases.

The desktop interface is not part of this crate; `app/` offers `list`,
`sync` and `export` from the command line instead. `sync` reads a GitHub
token from `ISKRA_GITHUB_TOKEN`. Fresh sermon, movement and idea ids are
version-4 UUIDs made by the `uuid` crate, which needs no system GLib
library (GLib's `uuid_string_random` would).

# kanyu-shell

The decision logic of the Kanyu desktop shell, verified with Verus: the
command registry and ribbon layout, the dock's panel placement, the terminal's
command parsing and history, the assistant's offline intent parser and reply
texts, the attribute table's filter, type inference, sort cycle and field
dialogs, the catalog's categories and sorted file tree, the sketch state of
the editing session, layer id allocation, dialog validation, command-line
reading and the byte encodings used when exporting images.

Layout:

- `src/` — the library; every public function states what it returns or
  changes in `requires`/`ensures`, and the cross-function properties stand as
  `law_*` proof functions.
- `tests/` — tests on concrete values.
- `app/` — the program around the library: argument handling, settings file,
  directory reading (`catalog [dir]` in the terminal), HTTP calls to the chat
  service and the terminal loop. The data engine is not part of this build, so
  the terminal refuses commands that need data.

# IdirFéin desktop core

The logic of a desktop organiser for notes, tasks, passwords, a photo gallery and syncing
with a home server, written in Verus with its contracts proved.

- `src/` is the verified library. Each page of the app is a state machine: a struct holding
  the page's state, a message type for what the user, the files or the server do, and an
  `update` that returns what has to happen next (read or write a file, ask the user, show a
  toast). The contracts of `update` say, message by message, how the state changes and what
  is asked for. Beside the pages stand the parts they are built from: paths and their
  order, markdown list completion, the note's text and undo history (`loro`), note titles
  and the notes list, the tasks of a project, password entries, the gallery's rows and the
  faces found in images, the sync lists, the setup wizard's checks, and the settings.
- `tests/` runs the library on concrete values, comparing path handling with `std::path`.
- `app/` is the program around the library: it loads and saves the settings, reads and
  writes notes, project files, KeePass databases, thumbnails and faces files, and hands the
  results back to the pages.

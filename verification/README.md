# gittui

A terminal Git client in the style of an editor's source-control sidebar:
branches, staged files, changes, stashes, a commit editor, remotes, a diff
viewer and a commit graph, driven by keyboard and mouse.

The core is a library verified with Verus:

- `src/app` — the application state and every rule that changes it. Key and
  mouse handlers are functions from a state and an event to the next state
  and a list of `Effect`s (repository work) for the host to carry out.
  `laws.rs` states properties that hold of every state.
- `src/input` — keys, mouse, the command palette's fuzzy match and the
  multi-line text editor of the commit message.
- `src/git` — the shaping of repository data: status groups, branch order,
  the commit log and its lane graph, diff parsing, hunk patches, conflict
  markers.
- `src/ui` — what each panel shows, as rows of styled spans, and where the
  panels go on the screen.
- `src/config`, `src/event`, `src/clock` — settings, the events of the main
  loop, and the clock.

`app/` is the program around it: the terminal, the drawing with ratatui, the
repository I/O with git2 and the `git` command, and the configuration file.

`tests/` exercises the library on concrete values.

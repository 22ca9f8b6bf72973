# git_full_commit

A terminal tool that stages every change, lets you review the staged diff,
unstage files, hunks or lines, and commit (or amend, reword, reorder and
squash previous commits), with undo and redo.

The library under `src/` is verified with Verus: the screen's state machine,
the diff parser and patch builders, the undoable commands, the multi-step git
operations and the screen layout all carry contracts that Verus proves. It
never touches the terminal, the file system or git itself: commands hand back
the effects to perform, and multi-step operations say which step they need
next and take what came of it.

- `src/git.rs`, `src/git_patch.rs`: git invocations as values, the diff
  parser, patches for hunks and lines.
- `src/hunk_layout.rs`, `src/file_starts.rs`: what the parser guarantees of
  its output (hunks are ordered runs of their file's lines; files begin with
  their header line) and where a jump from a commit's summary lands.
- `src/git_flows.rs`, `src/command/reorder_commits.rs`: operations that take
  several runs of git, one step at a time.
- `src/command/`: undoable commands, their effects, and the history.
- `src/app_state.rs`, `src/cursor_state.rs`: the state of the screen.
- `src/ui/`: keys, text inputs, scrolling, both panes, the diff view and the
  layout of the screen.
- `src/text.rs`, `src/external_command.rs`: text helpers, the editor command.

`app/` is the program around it: argument handling, running git, reading
and writing files, the background loader of commit diffs, and drawing with
pancurses.

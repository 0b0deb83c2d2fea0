# gensui

The model of a dashboard that supervises several coding agents at once. Each worker runs a
workflow in a git worktree of its own; the dashboard shows what they do, asks for permissions
and keeps the histories of their sessions.

- `src/` is the library: what keys and events do to the dashboard (`app`), what is shown (`ui`),
  how workers are managed and how an agent goes through its workflow (`worker`), how logs and
  sessions are read (`log_parser`, `session_import`), and where state is kept
  (`state`). Everything in it is verified with Verus; what it takes from other crates stands
  behind small functions whose contracts say what is taken on trust.
- `app/` is the program around it: the terminal, files, git, threads and the pseudo terminal in
  which an agent runs.
- `tests/` runs the library.

What the agent is called is handed to the library. The program takes it from the environment:
`GENSUI_PRODUCT_NAME` and `GENSUI_PRODUCT_SHORT_NAME` are its names in texts,
`GENSUI_PRODUCT_COMMAND` the command that starts it, and `GENSUI_PRODUCT_DIRECTORY` the directory
under the home directory in which it keeps its sessions. `GENSUI_CLAUDE_BIN` names the program
that workers run instead of the command, `GENSUI_CLAUDE_HOME` the directory of its configuration,
and `CLAUDE_CONFIG_DIR` the directory whose sessions are read.

# termul_manager

The rules of a terminal workspace whose sessions outlive its window, as a
verified library, and the daemon around it.

- `src/session_recovery`: the sessions that the daemon owns and what it keeps of
  their output, what clients and daemon say to each other, who may ask, the
  terminals of the window that run in the daemon, and the registry on disk with
  its save.
- `src/commands`: the rules behind the window's commands: searching with
  ripgrep, git, worktrees, SSH, the askpass helper, browser tabs, the log, and
  the replies that all of them give.
- `src/keyed.rs`, `src/paths.rs`, `src/text.rs`: maps by text, path texts, and
  text as sequences of characters.
- `src/outside.rs`: what is taken on trust of `serde_json` and `uuid`.
- `tests`: the library on concrete values.
- `app`: processes, pseudo terminals, sockets, files and JSON.

What holds of the library as a whole is stated by the public proof functions
whose names start with `law_`.

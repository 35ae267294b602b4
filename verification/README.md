# manderrow

The backend logic of the Manderrow mod manager, with machine-checked contracts.

- `src/tasks/` — task ids and builders, the registry of running tasks, and
  the two run machines (`NonTerminal`, `TaskRun`) that decide, event by event,
  what a running task reports to the frontend and when it leaves the registry.
  A created task is an `OpenTask`, closed with `close`, `fail` or `abandon`,
  or by a run. The laws `lemma_open_task_closed_once`,
  `lemma_running_task_closed_once` and
  `lemma_non_terminal_hands_back_or_closes` state that a created task is
  closed exactly once and then unregistered.
- `src/paths.rs` — the application directories, set once by `init`.
- `src/json.rs` — the framing of the mod index replies.
- `app/` — the Tauri side: global state, events, file system and the async
  drivers of the run machines.

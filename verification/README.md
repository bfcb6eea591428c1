# repo_browser

A terminal browser for the GitHub repositories of the signed-in user.

- `src/` is the library, verified with Verus: the browser's state machine
  (`app`, with its abstract model in `model`), keys and platforms (`input`),
  repositories and listings (`repo`), the file tree (`tree`), the list
  selection kept by ratatui (`selection`), what each screen shows (`view`),
  and properties that span several steps (`laws`).
- `app/` is the program around it: it lists the repositories with octocrab,
  reads keys with crossterm, runs the main loop, performs the fetches the
  library asks for on tokio, and draws the screens with ratatui.
- `tests/` exercises the library.

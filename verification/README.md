# docklab

`lab` creates, monitors and removes a disposable Kali Linux Docker container
named `docklab`. This crate holds its logic as a library verified with Verus,
and the program around it.

- `src/text.rs` — Unicode white space, trimming, substring search and line
  counting, specified over character sequences.
- `src/data.rs` — the docker queries behind each dashboard panel, how a
  captured run becomes a result, the Overview data, and the panel text of a
  result (`render_result`).
- `src/app.rs` — the dashboard state (`App`), its tabs and overlays, and how
  keys, the refresh timer and fetched data change it.
- `src/cli.rs` — which action a command line asks for, and the docker steps
  of `lab create`, `lab close` and `lab reconnect`, in order.
- `src/laws.rs` — properties that span these functions, proved.
- `app/` — the program: argument parsing (clap), running `docker`, the
  terminal loop (crossterm) and drawing (ratatui).

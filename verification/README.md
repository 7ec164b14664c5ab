# procband

A terminal dashboard that starts the services of a `Procfile`, shows their
status and keeps the latest 1000 log lines of each.

- `src/` is the verified core: Procfile parsing (`config`, on the character
  model of `text`), the bounded log buffer (`log_buffer`), the dashboard state
  and how process events change it (`state`), key bindings (`action`), the
  decisions of the main loop (`control`), the events a service task reports
  (`report`), the signal target of a service's process group
  (`process_group`), the initial state (`supervisor`), what the dashboard shows
  (`view`) and properties across calls (`laws`).
- `app/` is the program around it: reading the Procfile, spawning processes
  in their own process groups with tokio, reading their output, the terminal
  and its drawing with crossterm and ratatui, and the event loop that carries
  out what `control` decides.
- `tests/` runs the library on concrete inputs.

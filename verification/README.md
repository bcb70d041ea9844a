# mnml-virt-docker

A terminal browser for Docker — containers, images, volumes, networks and
per-project compose services — driven by the `docker` CLI.

## Layout

- `src/` — the library, verified with Verus:
  - `app.rs` — the application state machine. Every operation is a
    function from the current state to the next one; work that needs the
    outside world (running `docker`, the clipboard, launching a program)
    is left in `App::request`, and the matching `on_*` method takes the
    answer.
  - `docker.rs` — the commands run, the records read back, how each
    outcome is read (daemon probe, inspect, list framing, ECR references).
  - `config.rs` — the config model, its validation and location.
  - `keys.rs` — the key map and how each action changes the state.
  - `view.rs` — what the screen shows, as text.
  - `blit.rs` — colour and attribute packing and the frame diff of the
    hosted mode.
  - `order.rs`, `text.rs` — stable sorting by text keys, text helpers.
  - `laws.rs` — properties that tie several operations together.
- `app/` — the program: argument handling, the config file, running
  `docker`, decoding its JSON into the library's records, drawing with
  ratatui, and the two event loops (terminal and hosted).
- `tests/` — tests of the library.

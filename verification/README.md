# sshhub

An SSH lobby for terminal games: users log in once, pick a game from a
menu, and their session is bridged to that game's own SSH server with the
same login. A small runtime for ratatui games served over SSH comes with it.

## Layout

- `src/` — the verified library (Verus): the server's decisions, each with
  its contract:
  - `input`: decoding client bytes into key and resize events;
  - `idle`: the idle kick countdown;
  - `lobby`: the menu as a state machine (keys, resizes, draw ticks, kick);
  - `session`, `bridge`: the course of a session and the relay rules;
  - `channel`, `client`: per-channel and per-connection request handling;
  - `converter`: raw input streams to one event stream with idle handling,
    ending once both streams have closed;
  - `writer`: the outgoing byte buffer behind the terminal UI;
  - `preview`, `loading`, `ui`, `config`: game previews (decoding image
    and GIF bytes, half-block pictures, GIF animation) and what the lobby
    screen shows;
  - `keys`: the host key, kept in its stored binary form (decode, generate,
    reuse a stored key);
  - `credential`, `text`: small shared pieces.
- `app/` — the binary: sockets, tasks, timers, files, ratatui drawing and
  the SSH library's callbacks. It reads and writes the files and runs the
  loops; the decisions inside them are the library's.
- `tests/` — tests of the library on concrete values.

# portal_api

The decision logic of a game-tournament portal's HTTP API, written in Verus
and verified: what each endpoint checks, in which order it refuses, how it
pages, orients results, rotates refresh tokens, drives the CS2 server
console and the lobby socket, and what it builds for its answers.

- `src/` is the verified library. Each module covers one area of the API
  (`auth`, `console`, `console_flow`, `evidence`, `games`, `pugs`, ...).
  Functions state their results over spec functions; the laws that span
  several calls are public proof functions next to the functions they
  relate.
- Where a request alternates with store or service calls, the library
  holds the step functions (state and event to next step) and the caller
  performs each step: the refresh flow in `auth`, the console request order
  in `console_flow`, the sockets in `pug_socket` and `agent`, the match
  statistics recording in `internal`.
- The `uuid` and `chrono` calls sit behind small trusted wrappers in `ids`
  and `clock`, whose contracts say what those crates document.
- `app/` is plain Rust around the library: serde forms of the types, JSON,
  headers and cookies, socket frames, the file system and floating point.
- `tests/` exercise the library on concrete values.

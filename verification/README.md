# turtle_chat

A chat server whose decisions are verified with [Verus](https://github.com/verus-lang/verus).

- `src/` is the library: logging in and registering, channels, messages, sessions and the
  link to the core server. It does no I/O. Operations that have to wait are functions from
  events to actions, and every function states what it returns for every event. Where that
  rests on chance or on the time, it states what holds of every outcome, and another function
  takes the outcome and is exact. `src/laws.rs` proves what holds of whole runs. `src/outside.rs` holds the calls into other crates that the
  proofs rely on.
- `tests/` runs the library, with the real crates behind it.
- `app/` is the server: WebSockets, PostgreSQL and the wire format. It takes the wire format
  from the `turtle_protocol` crate, which is not published and has to be supplied.

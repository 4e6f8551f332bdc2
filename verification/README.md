# alleycat

The terminal bridge of alleycat, with its logic verified by Verus.

A client speaks to a PTY-backed agent over a framed wire: a `DPTY` header, a
kind and a payload. A session starts with a hello and a start request, spawns
the agent in a pseudo-terminal, forwards input, resizes and output, and ends
when either side goes.

- `src/wire.rs`, `src/wire_laws.rs`: frames, and what reading and writing them
  have to do with each other
- `src/payload.rs`, `src/error.rs`, `src/text.rs`: payloads, errors and the text
  in them
- `src/session.rs`, `src/session_laws.rs`: the session, step by step, and what
  holds of every session
- `src/launch.rs`, `src/shutdown.rs`: how a terminal is launched and shut down
- `src/agent_manifest.rs`, `src/protocol.rs`: the agents on offer; one of them,
  the guest, takes its name, label, description and aliases from the program
  that embeds the library
- `app/`: async streams, JSON and pseudo-terminals around the library

# kaigi

Kaigi is a conferencing stack: a hub that keeps meeting rooms and relays
their frames, a meeting client that keeps a session, and the SoraNet bytes
that carry them. This crate is its logic, written in Verus and verified.

Layout of `src/`:

- `hub/`: the room rules of the hub: joining, the waiting room, roles and
  signed actions, moderation, session policy, billing, anonymous mode,
  media checks, rosters, the per-frame steps of a connection, and the
  texts the hub sends back for its decisions.
- `wire.rs`: the framed control protocol (`u32` big-endian length, then the
  payload) and its streaming decoder.
- `client/`: the meeting client: session state, the reducer that applies
  frames and transport events, the runtime that schedules reconnects and
  the web fallback, and the JSON form of its protocol frames (reading
  frames from JSON text through serde_json, and writing them, with a proof
  that reading gives back what was written).
- `soranet.rs`: the Kaigi room id, the route-open header, handshake framing
  and handshake parameters.
- `platform.rs`: the platform contract every client must meet.
- `codec.rs`, `text.rs`: hex, digests and text helpers the rules use.

`tests/` exercises the library on concrete values. `app/` is the hub
program and the I/O around the library (WebSocket server, QUIC relay
client, printing frames as JSON text); it is not verified.

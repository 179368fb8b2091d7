# Eris

Eris is a WebRTC signaling hub with text chat, channels and screen sharing.
This crate holds its decision core, proved with Verus, and a thin program
around it.

- `src/protocol.rs` — the protocol messages; peers are identified by the
  numeric value of a UUID.
- `src/registry.rs` — the registry of logged-in peers, a `DashMap`.
- `src/state.rs` — the shared hub state: registry, bounded chat history,
  invite token; token checks, peer lists, user-name checks.
- `src/session.rs` — the per-connection state machine: login handshake, chat,
  channel moves, screen-sharing notices, signal routing, disconnection.
- `src/client.rs` — the native client's buffering of messages until its
  interface is ready.
- `src/invite.rs` — invite tokens and invite links.
- `src/text.rs` — the standard library's trimming and lower-casing.
- `app/` — the server program (axum, TLS, websockets), the JSON form of the
  protocol, and the client's websocket connection.

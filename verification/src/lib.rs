//! Eris: the decision core of a WebRTC signaling hub.
//!
//! The hub keeps a registry of logged-in peers, a bounded chat history and an
//! invite token. Each websocket connection is driven by a [`session::Session`],
//! a state machine that turns incoming protocol messages into the messages the
//! hub must send back, broadcast, or route to one peer.
//! The native client side keeps messages that arrive before its user
//! interface is ready, and hands them over in order once it is.

pub mod protocol;
pub mod text;
pub mod registry;
pub mod state;
pub mod session;
pub mod client;
pub mod invite;
pub mod cert;

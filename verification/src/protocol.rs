//! The wire protocol shared by the hub and its clients.
//!
//! Peers are identified by 128-bit identifiers (the numeric value of a UUID).
//! The opaque payload of a WebRTC signal is carried through as a JSON value.

use vstd::prelude::*;

verus! {

/// A JSON value, carried through the hub without being looked into.
#[verifier::external_type_specification]
#[verifier::external_body]
pub struct ExJsonValue(serde_json::Value);

/// Identifier of a connected peer.
pub type PeerId = u128;

/// A message exchanged between the hub and a client.
#[derive(Debug, PartialEq)]
pub enum Protocol {
    Login { username: String },
    JoinChannel { channel: String },
    Identify { id: PeerId, username: String },
    PeerList { peers: Vec<PeerInfo> },
    ChatMessage { channel: String, author: String, content: String },
    ScreenState { peer_id: PeerId, is_sharing: bool },
    RequestStream { target_id: PeerId },
    Signal { target_id: PeerId, data: serde_json::Value },
    System { message: String, severity: String },
}

/// What the hub tells its clients about one connected peer.
#[derive(Debug, Clone, PartialEq)]
pub struct PeerInfo {
    pub id: PeerId,
    pub username: String,
    pub channel: String,
    pub is_sharing: bool,
}

/// `p` is a system notice with the given text and severity.
pub open spec fn is_system(p: Protocol, message: Seq<char>, severity: Seq<char>) -> bool {
    p matches Protocol::System { message: m, severity: s } && m@ == message && s@ == severity
}

/// `p` is a chat message posted in `channel`.
pub open spec fn is_chat_in(p: Protocol, channel: Seq<char>) -> bool {
    p matches Protocol::ChatMessage { channel: c, .. } && c@ == channel
}

impl Protocol {
    /// A copy of a chat message, field by field.
    pub fn copy_chat(&self) -> (res: Protocol)
        requires
            self is ChatMessage,
        ensures
            res == *self,
    {
        match self {
            Protocol::ChatMessage { channel, author, content } => Protocol::ChatMessage {
                channel: channel.clone(),
                author: author.clone(),
                content: content.clone(),
            },
            _ => {
                proof {
                    assert(false);
                }
                Protocol::PeerList { peers: Vec::new() }
            },
        }
    }
}

} // verus!

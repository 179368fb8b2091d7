//! The per-connection state machine of the hub.
//!
//! A connection first goes through a login handshake; once a user name is
//! accepted it takes part in chat, channel moves, screen-sharing notices and
//! the routing of WebRTC signals, until the connection ends. The machine
//! answers each incoming frame with the messages to send: back to this
//! connection, to every connection, or to one peer.

use vstd::prelude::*;
use crate::protocol::{is_chat_in, is_system, PeerId, Protocol};
use crate::registry::PeerView;
use crate::state::{all_chat, bounded_push, lists_peers, lobby_messages, name_taken, AppState};
use crate::text::{trim, trimmed};

verus! {

/// Where a connection stands.
#[derive(Debug, Clone, Copy, PartialEq)]
pub enum Phase {
    /// Waiting for an acceptable login.
    Handshake,
    /// Logged in and registered.
    Active,
    /// Finished; nothing more happens.
    Closed,
}

/// A frame read from the websocket, as the machine sees it.
#[derive(Debug, PartialEq)]
pub enum Inbound {
    /// A text frame that decodes as a protocol message.
    Text(Protocol),
    /// A text frame that does not decode.
    Unreadable,
    /// A frame that is not text (binary, ping, pong, close).
    NonText,
    /// The stream reported an error.
    Failed,
    /// The stream ended.
    Ended,
}

/// A message the hub must send.
#[derive(Debug, PartialEq)]
pub enum Outbound {
    /// To this connection only.
    Reply(Protocol),
    /// To every connection.
    Broadcast(Protocol),
    /// To the connection of one registered peer.
    Direct(PeerId, Protocol),
}

/// One websocket connection.
#[derive(Debug, Clone, PartialEq)]
pub struct Session {
    pub id: PeerId,
    pub username: String,
    pub channel: String,
    pub phase: Phase,
}

/// `o` broadcasts a system notice with the given text and severity.
pub open spec fn broadcasts_system(o: Outbound, message: Seq<char>, severity: Seq<char>) -> bool {
    o matches Outbound::Broadcast(p) && is_system(p, message, severity)
}

/// `o` broadcasts the list of the peers of `reg`.
pub open spec fn broadcasts_peers(o: Outbound, reg: Map<PeerId, PeerView>) -> bool {
    o matches Outbound::Broadcast(Protocol::PeerList { peers }) && lists_peers(peers@, reg)
}

/// The chat message the hub relays for a peer: stamped with the peer's
/// current channel and user name, whatever the peer claimed.
pub open spec fn chat_from(channel: String, author: String, content: String) -> Protocol {
    Protocol::ChatMessage { channel, author, content }
}

/// The effect of a logged-in peer's message on the history.
pub open spec fn history_after(
    channel: String,
    author: String,
    msg: Protocol,
    history: Seq<Protocol>,
) -> Seq<Protocol> {
    match msg {
        Protocol::ChatMessage { content, .. } => bounded_push(
            history,
            chat_from(channel, author, content),
        ),
        _ => history,
    }
}

/// The effect of a logged-in peer's message on the registry.
pub open spec fn registry_after(
    id: PeerId,
    msg: Protocol,
    reg: Map<PeerId, PeerView>,
) -> Map<PeerId, PeerView> {
    match msg {
        Protocol::JoinChannel { channel } => if reg.contains_key(id) {
            reg.insert(id, PeerView { channel: channel@, ..reg[id] })
        } else {
            reg
        },
        Protocol::ScreenState { is_sharing, .. } => if reg.contains_key(id) {
            reg.insert(id, PeerView { is_sharing, ..reg[id] })
        } else {
            reg
        },
        _ => reg,
    }
}

/// What the hub sends when a logged-in peer `me`, in channel `channel` under
/// user name `username`, sends `msg`; `reg` is the registry once `msg` took effect.
pub open spec fn active_output(
    me: PeerId,
    username: String,
    channel: String,
    msg: Protocol,
    reg: Map<PeerId, PeerView>,
    out: Seq<Outbound>,
) -> bool {
    match msg {
        Protocol::JoinChannel { channel: c } => {
            &&& out.len() == 2
            &&& broadcasts_system(out[0], username@ + " moved to "@ + c@, "info"@)
            &&& broadcasts_peers(out[1], reg)
        },
        Protocol::ChatMessage { content, .. } => out == seq![
            Outbound::Broadcast(chat_from(channel, username, content)),
        ],
        Protocol::Signal { target_id, data } => if reg.contains_key(target_id) {
            out == seq![Outbound::Direct(target_id, Protocol::Signal { target_id: me, data })]
        } else {
            out.len() == 0
        },
        Protocol::ScreenState { is_sharing, .. } => {
            &&& out.len() == 2
            &&& out[0] == Outbound::Broadcast(Protocol::ScreenState { peer_id: me, is_sharing })
            &&& broadcasts_peers(out[1], reg)
        },
        Protocol::RequestStream { target_id } => if reg.contains_key(target_id) {
            out == seq![Outbound::Direct(target_id, Protocol::RequestStream { target_id: me })]
        } else {
            out.len() == 0
        },
        _ => out.len() == 0,
    }
}

/// The messages a session sends back when it accepts the login of `name`:
/// its identity, the lobby's history, then the join notice and the peer list
/// broadcast to everyone.
pub open spec fn login_output(
    me: PeerId,
    name: Seq<char>,
    history: Seq<Protocol>,
    reg: Map<PeerId, PeerView>,
    out: Seq<Outbound>,
) -> bool {
    let lobby = lobby_messages(history);
    &&& out.len() == lobby.len() + 3
    &&& out[0] matches Outbound::Reply(Protocol::Identify { id, username }) && id == me
        && username@ == name
    &&& forall|i: int| 0 <= i < lobby.len() ==> #[trigger] out[i + 1] == Outbound::Reply(lobby[i])
    &&& broadcasts_system(out[lobby.len() as int + 1], name + " joined lobby"@, "info"@)
    &&& broadcasts_peers(out[lobby.len() as int + 2], reg)
}

/// What accepting or refusing the login of `username` does. The requested name
/// is trimmed of surrounding whitespace. An empty name is ignored; a name that
/// a registered peer already has, ignoring case, is refused with an error
/// notice; any other name is registered in the lobby and the session becomes
/// active.
pub open spec fn login_effect(
    s0: Session,
    s1: Session,
    st0: AppState,
    st1: AppState,
    username: String,
    out: Seq<Outbound>,
) -> bool {
    let name = trimmed(username@);
    &&& s1.id == s0.id
    &&& st1.history == st0.history
    &&& st1.invite_token == st0.invite_token
    &&& if name.len() == 0 {
        &&& out.len() == 0
        &&& s1 == s0
        &&& st1.registry() == st0.registry()
    } else if name_taken(st0.registry(), name) {
        &&& out.len() == 1
        &&& out[0] matches Outbound::Reply(p)
        &&& is_system(p, "Username taken"@, "error"@)
        &&& s1 == s0
        &&& st1.registry() == st0.registry()
    } else {
        &&& s1.phase is Active
        &&& s1.username@ == name
        &&& s1.channel == s0.channel
        &&& st1.registry() == st0.registry().insert(
            s0.id,
            PeerView { username: name, channel: "lobby"@, is_sharing: false },
        )
        &&& login_output(s0.id, name, st0.history@, st1.registry(), out)
    }
}

/// What a logged-in peer's message does to the session, the shared state and
/// the outgoing messages.
pub open spec fn active_effect(
    s0: Session,
    s1: Session,
    st0: AppState,
    st1: AppState,
    msg: Protocol,
    out: Seq<Outbound>,
) -> bool {
    &&& s1.id == s0.id
    &&& s1.username == s0.username
    &&& s1.phase is Active
    &&& s1.channel == (match msg {
        Protocol::JoinChannel { channel } => channel,
        _ => s0.channel,
    })
    &&& st1.registry() == registry_after(s0.id, msg, st0.registry())
    &&& st1.history@ == history_after(s0.channel, s0.username, msg, st0.history@)
    &&& st1.invite_token == st0.invite_token
    &&& active_output(s0.id, s0.username, s0.channel, msg, st1.registry(), out)
}

/// What ending a connection does: a logged-in peer is dropped from the
/// registry and the new peer list is broadcast; a connection that never
/// logged in leaves nothing behind.
pub open spec fn close_effect(
    s0: Session,
    s1: Session,
    st0: AppState,
    st1: AppState,
    out: Seq<Outbound>,
) -> bool {
    &&& s1.phase is Closed
    &&& s1.id == s0.id
    &&& s1.username == s0.username
    &&& s1.channel == s0.channel
    &&& st1.history == st0.history
    &&& st1.invite_token == st0.invite_token
    &&& if s0.phase is Active {
        &&& st1.registry() == st0.registry().remove(s0.id)
        &&& out.len() == 1
        &&& broadcasts_peers(out[0], st1.registry())
    } else {
        &&& st1.registry() == st0.registry()
        &&& out.len() == 0
    }
}

/// Nothing changes and nothing is sent.
pub open spec fn unchanged(s0: Session, s1: Session, st0: AppState, st1: AppState, out: Seq<Outbound>) -> bool {
    &&& s1 == s0
    &&& st1.registry() == st0.registry()
    &&& st1.history == st0.history
    &&& st1.invite_token == st0.invite_token
    &&& out.len() == 0
}

/// What one incoming frame does. During the handshake only a login counts and
/// an error or the end of the stream closes the connection; once logged in,
/// every decoded message is handled, undecodable text is skipped, and any
/// other frame, an error or the end of the stream closes the connection.
pub open spec fn frame_effect(
    s0: Session,
    s1: Session,
    st0: AppState,
    st1: AppState,
    frame: Inbound,
    out: Seq<Outbound>,
) -> bool {
    match s0.phase {
        Phase::Handshake => match frame {
            Inbound::Text(Protocol::Login { username }) => login_effect(s0, s1, st0, st1, username, out),
            Inbound::Failed | Inbound::Ended => close_effect(s0, s1, st0, st1, out),
            _ => unchanged(s0, s1, st0, st1, out),
        },
        Phase::Active => match frame {
            Inbound::Text(msg) => active_effect(s0, s1, st0, st1, msg, out),
            Inbound::Unreadable => unchanged(s0, s1, st0, st1, out),
            _ => close_effect(s0, s1, st0, st1, out),
        },
        Phase::Closed => unchanged(s0, s1, st0, st1, out),
    }
}

/// The session and the registry agree: a connection still logging in sits in
/// the lobby, and a logged-in connection's registry entry carries its user
/// name and its current channel.
pub open spec fn in_step(s: Session, reg: Map<PeerId, PeerView>) -> bool {
    match s.phase {
        Phase::Handshake => s.channel@ == "lobby"@,
        Phase::Active => {
            &&& reg.contains_key(s.id)
            &&& reg[s.id].username == s.username@
            &&& reg[s.id].channel == s.channel@
        },
        Phase::Closed => true,
    }
}

/// A connection's own frames keep it in step with the registry: a login enters
/// it in the lobby under its name, a channel move moves its entry along, and
/// nothing else touches its name or channel.
pub proof fn lemma_frame_keeps_step(
    s0: Session,
    s1: Session,
    st0: AppState,
    st1: AppState,
    frame: Inbound,
    out: Seq<Outbound>,
)
    requires
        frame_effect(s0, s1, st0, st1, frame, out),
        in_step(s0, st0.registry()),
    ensures
        in_step(s1, st1.registry()),
{
}

/// Another connection's frames keep this one in step: they only touch the
/// other connection's own registry entry.
pub proof fn lemma_other_session_keeps_step(
    me: Session,
    s0: Session,
    s1: Session,
    st0: AppState,
    st1: AppState,
    frame: Inbound,
    out: Seq<Outbound>,
)
    requires
        frame_effect(s0, s1, st0, st1, frame, out),
        me.id != s0.id,
        in_step(me, st0.registry()),
    ensures
        in_step(me, st1.registry()),
{
}

/// Whether the broadcast `msg` goes out on the connection of `s`.
pub open spec fn forwards(s: Session, msg: Protocol) -> bool {
    match msg {
        Protocol::ChatMessage { channel, .. } => channel@ == s.channel@,
        _ => true,
    }
}

/// Chat stays within its channel: the chat message relayed for a logged-in
/// peer reaches exactly the connections that are in the channel the sender was
/// in, whatever channel the sender named in its message.
pub proof fn lemma_chat_reaches_its_channel(
    s0: Session,
    s1: Session,
    st0: AppState,
    st1: AppState,
    msg: Protocol,
    out: Seq<Outbound>,
    other: Session,
)
    requires
        msg is ChatMessage,
        active_effect(s0, s1, st0, st1, msg, out),
    ensures
        out.len() == 1,
        out[0] matches Outbound::Broadcast(relayed) && (forwards(other, relayed) <==> other.channel@
            == s0.channel@),
{
}

/// A peer that leaves is gone: once its connection closes it is no longer
/// registered, and the peer list broadcast on its departure does not name it.
pub proof fn lemma_departed_peer_not_listed(
    s0: Session,
    s1: Session,
    st0: AppState,
    st1: AppState,
    out: Seq<Outbound>,
)
    requires
        s0.phase is Active,
        close_effect(s0, s1, st0, st1, out),
    ensures
        !st1.registry().contains_key(s0.id),
        out[0] matches Outbound::Broadcast(Protocol::PeerList { peers }) && forall|i: int|
            0 <= i < peers@.len() ==> (#[trigger] peers@[i]).id != s0.id,
{
    if let Outbound::Broadcast(Protocol::PeerList { peers }) = out[0] {
        assert forall|i: int| 0 <= i < peers@.len() implies (#[trigger] peers@[i]).id != s0.id by {
            assert(st1.registry().contains_key(peers@[i].id));
        }
    }
}

/// Everything but chat reaches every connection: notices, peer lists,
/// screen-sharing notices and the rest go out whatever channel a connection
/// is in.
pub proof fn lemma_notices_reach_everyone(s: Session, msg: Protocol)
    requires
        !(msg is ChatMessage),
    ensures
        forwards(s, msg),
{
}

/// The newcomer gets the lobby's chat history oldest first: once a login is
/// accepted, the replies between the identity and the join notice are exactly
/// the history's chat messages posted in the lobby, each once, in the order
/// they were posted.
pub proof fn lemma_login_replays_lobby_in_order(
    s0: Session,
    s1: Session,
    st0: AppState,
    st1: AppState,
    username: String,
    out: Seq<Outbound>,
)
    requires
        login_effect(s0, s1, st0, st1, username, out),
        s1.phase is Active,
        s0.phase is Handshake,
    ensures
        ({
            let posted = st0.history@.filter(|p: Protocol| is_chat_in(p, "lobby"@));
            &&& out.len() == posted.len() + 3
            &&& out.subrange(1, posted.len() as int + 1) == posted.map_values(|p: Protocol| Outbound::Reply(p))
        }),
{
    let posted = st0.history@.filter(|p: Protocol| is_chat_in(p, "lobby"@));
    assert(posted == lobby_messages(st0.history@));
    assert(out.subrange(1, posted.len() as int + 1) =~= posted.map_values(|p: Protocol| Outbound::Reply(p))) by {
        assert forall|i: int| 0 <= i < posted.len() implies #[trigger] out.subrange(1, posted.len() as int + 1)[i]
            == posted.map_values(|p: Protocol| Outbound::Reply(p))[i] by {
            assert(out[i + 1] == Outbound::Reply(posted[i]));
        }
    }
}

/// A screen-sharing notice sets the sender's sharing flag to what it says,
/// whether it starts or stops sharing, leaves its name and channel and every
/// other peer alone, and is announced with the sender's id, followed by a
/// peer list that shows the new flag.
pub proof fn lemma_screen_state_sets_flag(
    s0: Session,
    s1: Session,
    st0: AppState,
    st1: AppState,
    msg: Protocol,
    out: Seq<Outbound>,
)
    requires
        active_effect(s0, s1, st0, st1, msg, out),
        msg is ScreenState,
        st0.registry().contains_key(s0.id),
    ensures
        st1.registry().contains_key(s0.id),
        st1.registry()[s0.id].is_sharing == msg->ScreenState_is_sharing,
        st1.registry()[s0.id].username == st0.registry()[s0.id].username,
        st1.registry()[s0.id].channel == st0.registry()[s0.id].channel,
        forall|k: PeerId| k != s0.id ==> st1.registry().contains_key(k) == st0.registry().contains_key(k)
            && (st0.registry().contains_key(k) ==> #[trigger] st1.registry()[k] == st0.registry()[k]),
        out.len() == 2,
        out[0] == Outbound::Broadcast(
            Protocol::ScreenState { peer_id: s0.id, is_sharing: msg->ScreenState_is_sharing },
        ),
        out[1] matches Outbound::Broadcast(Protocol::PeerList { peers }) && exists|i: int|
            0 <= i < peers@.len() && #[trigger] peers@[i].id == s0.id && peers@[i].is_sharing
                == msg->ScreenState_is_sharing,
{
    if let Outbound::Broadcast(Protocol::PeerList { peers }) = out[1] {
        assert(lists_peers(peers@, st1.registry()));
        assert(st1.registry().contains_key(s0.id));
        let i = choose|i: int| 0 <= i < peers@.len() && peers@[i].id == s0.id;
        assert(st1.registry()[peers@[i].id] == peers@[i].describes());
    }
}

/// A channel move takes effect everywhere: the session and the mover's
/// registry entry both name the new channel, and exactly two broadcasts go
/// out, the move notice and then a peer list that shows the mover in its new
/// channel.
pub proof fn lemma_channel_move_announced(
    s0: Session,
    s1: Session,
    st0: AppState,
    st1: AppState,
    msg: Protocol,
    out: Seq<Outbound>,
)
    requires
        active_effect(s0, s1, st0, st1, msg, out),
        msg is JoinChannel,
        st0.registry().contains_key(s0.id),
    ensures
        s1.channel == msg->JoinChannel_channel,
        st1.registry().contains_key(s0.id),
        st1.registry()[s0.id].channel == msg->JoinChannel_channel@,
        st1.registry()[s0.id].username == st0.registry()[s0.id].username,
        out.len() == 2,
        out[0] matches Outbound::Broadcast(Protocol::System { message, severity })
            && message@ == s0.username@ + " moved to "@ + msg->JoinChannel_channel@
            && severity@ == "info"@,
        out[1] matches Outbound::Broadcast(Protocol::PeerList { peers }) && exists|i: int|
            0 <= i < peers@.len() && #[trigger] peers@[i].id == s0.id && peers@[i].channel@
                == msg->JoinChannel_channel@,
{
    if let Outbound::Broadcast(Protocol::PeerList { peers }) = out[1] {
        assert(lists_peers(peers@, st1.registry()));
        assert(st1.registry().contains_key(s0.id));
        let i = choose|i: int| 0 <= i < peers@.len() && peers@[i].id == s0.id;
        assert(st1.registry()[peers@[i].id] == peers@[i].describes());
    }
}

/// A stream request reaches its target whatever channels the two peers are
/// in: for a registered target exactly one message goes out, to the target,
/// naming the requester; for an unregistered one nothing does. Nothing
/// changes in the hub.
pub proof fn lemma_stream_request_reaches_target(
    s0: Session,
    s1: Session,
    st0: AppState,
    st1: AppState,
    msg: Protocol,
    out: Seq<Outbound>,
)
    requires
        active_effect(s0, s1, st0, st1, msg, out),
        msg is RequestStream,
    ensures
        st1.registry() == st0.registry(),
        st1.history@ == st0.history@,
        st0.registry().contains_key(msg->RequestStream_target_id) ==> out == seq![
            Outbound::Direct(
                msg->RequestStream_target_id,
                Protocol::RequestStream { target_id: s0.id },
            ),
        ],
        !st0.registry().contains_key(msg->RequestStream_target_id) ==> out.len() == 0,
{
}

/// Signals go to their target only: a signal from a logged-in peer yields at
/// most one message, addressed to the named target and naming the sender, and
/// none at all if the target is not registered.
pub proof fn lemma_signal_reaches_only_target(
    s0: Session,
    s1: Session,
    st0: AppState,
    st1: AppState,
    msg: Protocol,
    out: Seq<Outbound>,
)
    requires
        msg is Signal,
        active_effect(s0, s1, st0, st1, msg, out),
    ensures
        st1.registry() == st0.registry(),
        st1.history@ == st0.history@,
        forall|i: int|
            0 <= i < out.len() ==> (#[trigger] out[i] matches Outbound::Direct(t, Protocol::Signal { target_id, .. })
                && t == msg->Signal_target_id && target_id == s0.id),
        out.len() == (if st0.registry().contains_key(msg->Signal_target_id) {
            1int
        } else {
            0int
        }),
{
}

/// Calls `uuid::Uuid::new_v4` and takes the identifier's numeric value. The
/// value is random; what holds of every outcome is that its version field,
/// bits 76 to 79, reads 4.
#[verifier::external_body]
fn random_peer_id() -> (res: PeerId)
    ensures
        (res >> 76u128) & 0xfu128 == 4,
{
    uuid::Uuid::new_v4().as_u128()
}

impl Session {
    /// A new connection with a fresh random identifier, not logged in yet.
    pub fn open() -> (res: Session)
        ensures
            res.username@ == Seq::<char>::empty(),
            res.channel@ == "lobby"@,
            res.phase is Handshake,
            (res.id >> 76u128) & 0xfu128 == 4,
    {
        Session::new(random_peer_id())
    }

    /// A connection that has not logged in yet, placed in the lobby.
    pub fn new(id: PeerId) -> (res: Session)
        ensures
            res.id == id,
            res.username@ == Seq::<char>::empty(),
            res.channel@ == "lobby"@,
            res.phase is Handshake,
            forall|reg: Map<PeerId, PeerView>| in_step(res, reg),
    {
        Session { id, username: String::new(), channel: String::from_str("lobby"), phase: Phase::Handshake }
    }

    /// Handles a login attempt during the handshake.
    ///
    /// The requested name is trimmed of surrounding whitespace. An empty name is
    /// ignored; a name that a registered peer already has, ignoring case, is
    /// refused with an error notice; any other name is registered in the lobby.
    pub fn login(&mut self, state: &mut AppState, username: String) -> (out: Vec<Outbound>)
        requires
            old(self).phase is Handshake,
            old(state).wf(),
        ensures
            final(state).wf(),
            login_effect(*old(self), *final(self), *old(state), *final(state), username, out@),
    {
        let name = trim(username.as_str());
        let mut out: Vec<Outbound> = Vec::new();
        if name.is_empty() {
            return out;
        }
        if state.is_username_taken(name) {
            let notice = Protocol::System {
                message: String::from_str("Username taken"),
                severity: String::from_str("error"),
            };
            out.push(Outbound::Reply(notice));
            return out;
        }
        let name = name.to_owned();
        state.register(self.id, name.clone());
        self.username = name.clone();
        self.phase = Phase::Active;
        out.push(Outbound::Reply(Protocol::Identify { id: self.id, username: name.clone() }));
        let lobby = state.lobby_history();
        let ghost lm = lobby@;
        let n = lobby.len();
        for i in 0..n
            invariant
                n == lm.len(),
                lobby@ == lm,
                all_chat(lm),
                out@.len() == i + 1,
                out@[0] == Outbound::Reply(Protocol::Identify { id: self.id, username: name }),
                forall|j: int| 0 <= j < i ==> #[trigger] out@[j + 1] == Outbound::Reply(lm[j]),
        {
            out.push(Outbound::Reply(lobby[i].copy_chat()));
        }
        let mut joined = name.clone();
        joined.append(" joined lobby");
        out.push(
            Outbound::Broadcast(
                Protocol::System { message: joined, severity: String::from_str("info") },
            ),
        );
        out.push(Outbound::Broadcast(state.broadcast_peer_list()));
        out
    }

    /// Handles a message from a logged-in peer.
    ///
    /// A channel move updates the session and the registry and is announced; a
    /// chat message is stamped with the session's channel and user name, kept
    /// in the history and broadcast; a signal or stream request is routed to its
    /// target, naming this peer as the sender, if the target is registered; a
    /// screen-sharing notice updates the registry and is broadcast. Anything
    /// else is ignored.
    pub fn handle_active(&mut self, state: &mut AppState, msg: Protocol) -> (out: Vec<Outbound>)
        requires
            old(self).phase is Active,
            old(state).wf(),
        ensures
            final(state).wf(),
            active_effect(*old(self), *final(self), *old(state), *final(state), msg, out@),
    {
        let mut out: Vec<Outbound> = Vec::new();
        match msg {
            Protocol::JoinChannel { channel } => {
                self.channel = channel.clone();
                state.set_channel(self.id, channel.clone());
                let mut notice = self.username.clone();
                notice.append(" moved to ");
                notice.append(channel.as_str());
                out.push(
                    Outbound::Broadcast(
                        Protocol::System { message: notice, severity: String::from_str("info") },
                    ),
                );
                out.push(Outbound::Broadcast(state.broadcast_peer_list()));
            },
            Protocol::ChatMessage { content, .. } => {
                let kept = Protocol::ChatMessage {
                    channel: self.channel.clone(),
                    author: self.username.clone(),
                    content: content.clone(),
                };
                state.record_chat(kept);
                let relayed = Protocol::ChatMessage {
                    channel: self.channel.clone(),
                    author: self.username.clone(),
                    content,
                };
                out.push(Outbound::Broadcast(relayed));
            },
            Protocol::Signal { target_id, data } => {
                if state.has_peer(target_id) {
                    out.push(Outbound::Direct(target_id, Protocol::Signal { target_id: self.id, data }));
                }
            },
            Protocol::ScreenState { is_sharing, .. } => {
                state.set_sharing(self.id, is_sharing);
                out.push(Outbound::Broadcast(Protocol::ScreenState { peer_id: self.id, is_sharing }));
                out.push(Outbound::Broadcast(state.broadcast_peer_list()));
            },
            Protocol::RequestStream { target_id } => {
                if state.has_peer(target_id) {
                    out.push(
                        Outbound::Direct(target_id, Protocol::RequestStream { target_id: self.id }),
                    );
                }
            },
            _ => {},
        }
        out
    }

    /// Ends the connection. A logged-in peer is dropped from the registry and
    /// the new peer list is broadcast; a connection that never logged in leaves
    /// nothing behind.
    pub fn close(&mut self, state: &mut AppState) -> (out: Vec<Outbound>)
        requires
            old(state).wf(),
        ensures
            final(state).wf(),
            close_effect(*old(self), *final(self), *old(state), *final(state), out@),
    {
        let mut out: Vec<Outbound> = Vec::new();
        if let Phase::Active = self.phase {
            state.unregister(self.id);
            out.push(Outbound::Broadcast(state.broadcast_peer_list()));
        }
        self.phase = Phase::Closed;
        out
    }

    /// Handles one frame read from the websocket.
    pub fn on_frame(&mut self, state: &mut AppState, frame: Inbound) -> (out: Vec<Outbound>)
        requires
            old(state).wf(),
        ensures
            final(state).wf(),
            frame_effect(*old(self), *final(self), *old(state), *final(state), frame, out@),
            in_step(*old(self), old(state).registry()) ==> in_step(
                *final(self),
                final(state).registry(),
            ),
    {
        match self.phase {
            Phase::Handshake => match frame {
                Inbound::Text(Protocol::Login { username }) => self.login(state, username),
                Inbound::Failed | Inbound::Ended => self.close(state),
                _ => Vec::new(),
            },
            Phase::Active => match frame {
                Inbound::Text(msg) => self.handle_active(state, msg),
                Inbound::Unreadable => Vec::new(),
                _ => self.close(state),
            },
            Phase::Closed => Vec::new(),
        }
    }

    /// Whether a broadcast message goes out on this connection: chat messages
    /// only reach the connections whose current channel is theirs; everything
    /// else reaches every connection.
    pub fn should_forward(&self, msg: &Protocol) -> (res: bool)
        ensures
            res == forwards(*self, *msg),
    {
        match msg {
            Protocol::ChatMessage { channel, .. } => *channel == self.channel,
            _ => true,
        }
    }
}

} // verus!

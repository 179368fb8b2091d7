//! The hub's shared state: the peer registry, the chat history and the invite token.

use vstd::prelude::*;
use crate::protocol::{is_chat_in, PeerId, PeerInfo, Protocol};
use crate::registry::{
    lists_table, no_peers, peer_table, table_contains, table_entries, table_get, table_insert,
    table_new, table_remove, Peer, PeerTable, PeerView,
};
use crate::text::{lowercase_of, to_lowercase};

verus! {

/// The number of chat messages the hub keeps for newcomers.
pub const HISTORY_LIMIT: usize = 50;

/// The query string of a websocket upgrade request.
#[derive(Debug, Clone, PartialEq)]
pub struct WsQuery {
    pub token: Option<String>,
}

/// What the hub does with a websocket upgrade request.
#[derive(Debug, Clone, Copy, PartialEq)]
pub enum Upgrade {
    /// Upgrade the connection and run a session on it.
    Accept,
    /// Answer 401 Unauthorized.
    Unauthorized,
}

/// Decides a websocket upgrade request: it goes through only if its query
/// carries the invite token.
pub fn ws_handler(state: &AppState, query: &WsQuery) -> (res: Upgrade)
    ensures
        res == (if query.token matches Some(t) && t@ == state.invite_token@ {
            Upgrade::Accept
        } else {
            Upgrade::Unauthorized
        }),
{
    if let Some(token) = &query.token {
        if *token == state.invite_token {
            return Upgrade::Accept;
        }
    }
    Upgrade::Unauthorized
}

/// The state that all connections of the hub share.
pub struct AppState {
    pub peers: PeerTable,
    pub history: Vec<Protocol>,
    pub invite_token: String,
}

/// No two peers of `reg` have the same user name, ignoring case.
pub open spec fn names_distinct(reg: Map<PeerId, PeerView>) -> bool {
    forall|a: PeerId, b: PeerId|
        #![trigger reg[a], reg[b]]
        reg.contains_key(a) && reg.contains_key(b) && a != b ==> lowercase_of(reg[a].username)
            != lowercase_of(reg[b].username)
}

/// Some peer of `reg` goes by `name`, ignoring case.
pub open spec fn name_taken(reg: Map<PeerId, PeerView>, name: Seq<char>) -> bool {
    exists|id: PeerId| #[trigger]
        reg.contains_key(id) && lowercase_of(reg[id].username) == lowercase_of(name)
}

/// `h` with `m` appended, the oldest message dropped if that overflows the limit.
pub open spec fn bounded_push(h: Seq<Protocol>, m: Protocol) -> Seq<Protocol> {
    if h.len() + 1 > HISTORY_LIMIT {
        h.push(m).drop_first()
    } else {
        h.push(m)
    }
}

/// `h` after appending each of `msgs` in turn.
pub open spec fn push_all(h: Seq<Protocol>, msgs: Seq<Protocol>) -> Seq<Protocol>
    decreases msgs.len(),
{
    if msgs.len() == 0 {
        h
    } else {
        bounded_push(push_all(h, msgs.drop_last()), msgs.last())
    }
}

/// The last `HISTORY_LIMIT` messages of `s` (all of them if there are fewer).
pub open spec fn latest(s: Seq<Protocol>) -> Seq<Protocol> {
    if s.len() > HISTORY_LIMIT {
        s.skip(s.len() - HISTORY_LIMIT)
    } else {
        s
    }
}

/// The history is a sliding window: whatever was posted, it holds the latest
/// `HISTORY_LIMIT` messages, oldest first.
pub proof fn lemma_history_keeps_latest(h: Seq<Protocol>, msgs: Seq<Protocol>)
    requires
        h.len() <= HISTORY_LIMIT,
    ensures
        push_all(h, msgs) == latest(h + msgs),
        push_all(h, msgs).len() <= HISTORY_LIMIT,
    decreases msgs.len(),
{
    if msgs.len() > 0 {
        lemma_history_keeps_latest(h, msgs.drop_last());
        let prev = push_all(h, msgs.drop_last());
        let all = h + msgs;
        assert(h + msgs.drop_last() =~= all.drop_last());
        if all.len() > HISTORY_LIMIT + 1 {
            assert(prev =~= all.drop_last().skip(all.len() - 1 - HISTORY_LIMIT));
            assert(prev.push(msgs.last()).drop_first() =~= all.skip(all.len() - HISTORY_LIMIT));
        } else if all.len() == HISTORY_LIMIT + 1 {
            assert(prev =~= all.drop_last());
            assert(prev.push(msgs.last()).drop_first() =~= all.skip(1));
        } else {
            assert(prev =~= all.drop_last());
            assert(prev.push(msgs.last()) =~= all);
        }
    }
}

/// Every message of `h` is a chat message.
pub open spec fn all_chat(h: Seq<Protocol>) -> bool {
    forall|i: int| 0 <= i < h.len() ==> #[trigger] h[i] is ChatMessage
}

/// The chat messages of `h` that were posted in the lobby, in order.
pub open spec fn lobby_messages(h: Seq<Protocol>) -> Seq<Protocol> {
    h.filter(|p: Protocol| is_chat_in(p, "lobby"@))
}

/// `infos` describes every peer of `reg` once, in some order.
pub open spec fn lists_peers(infos: Seq<PeerInfo>, reg: Map<PeerId, PeerView>) -> bool {
    &&& forall|i: int| 0 <= i < infos.len() ==> #[trigger] reg.contains_key(infos[i].id)
    &&& forall|i: int|
        0 <= i < infos.len() ==> reg[infos[i].id] == (#[trigger] infos[i]).describes()
    &&& forall|i: int, j: int|
        0 <= i < infos.len() && 0 <= j < infos.len() && i != j ==> #[trigger] infos[i].id
            != #[trigger] infos[j].id
    &&& forall|k: PeerId| #[trigger]
        reg.contains_key(k) ==> exists|i: int| 0 <= i < infos.len() && infos[i].id == k
}

/// User names are unique: in a well-formed hub, two different registered
/// peers never share a user name, ignoring case.
pub proof fn lemma_usernames_unique(state: AppState, a: PeerId, b: PeerId)
    requires
        state.wf(),
        state.registry().contains_key(a),
        state.registry().contains_key(b),
        a != b,
    ensures
        lowercase_of(state.registry()[a].username) != lowercase_of(state.registry()[b].username),
{
}

impl PeerInfo {
    /// The registry entry this description stands for.
    pub open spec fn describes(self) -> PeerView {
        PeerView { username: self.username@, channel: self.channel@, is_sharing: self.is_sharing }
    }
}

impl AppState {
    /// The registered peers.
    pub open spec fn registry(&self) -> Map<PeerId, PeerView> {
        peer_table(self.peers)
    }

    /// The history is bounded, and user names are unique ignoring case.
    pub open spec fn wf(&self) -> bool {
        &&& self.history.len() <= HISTORY_LIMIT
        &&& names_distinct(self.registry())
    }

    /// A hub with no peers and no history, guarded by `invite_token`.
    pub fn new(invite_token: String) -> (res: AppState)
        ensures
            res.registry() == no_peers(),
            res.history@ == Seq::<Protocol>::empty(),
            res.invite_token == invite_token,
            res.wf(),
    {
        AppState { peers: table_new(), history: Vec::new(), invite_token }
    }

    /// The peer-list message to broadcast: every registered peer, once.
    pub fn broadcast_peer_list(&self) -> (res: Protocol)
        ensures
            res matches Protocol::PeerList { peers } && lists_peers(peers@, self.registry()),
    {
        let entries = table_entries(&self.peers);
        let ghost reg = self.registry();
        let mut infos: Vec<PeerInfo> = Vec::new();
        let n = entries.len();
        for i in 0..n
            invariant
                n == entries.len(),
                lists_table(entries@, reg),
                infos.len() == i,
                forall|j: int|
                    0 <= j < i ==> (#[trigger] infos@[j]).id == entries@[j].0
                        && infos@[j].describes() == entries@[j].1@,
        {
            let entry = &entries[i];
            infos.push(
                PeerInfo {
                    id: entry.0,
                    username: entry.1.username.clone(),
                    channel: entry.1.channel.clone(),
                    is_sharing: entry.1.is_sharing,
                },
            );
        }
        proof {
            assert forall|i: int| 0 <= i < infos@.len() implies #[trigger] reg.contains_key(
                infos@[i].id,
            ) by {
                assert(reg.contains_key(entries@[i].0));
            }
            assert forall|i: int| 0 <= i < infos@.len() implies reg[infos@[i].id] == (
            #[trigger] infos@[i]).describes() by {
                assert(reg[entries@[i].0] == entries@[i].1@);
            }
            assert forall|i: int, j: int|
                0 <= i < infos@.len() && 0 <= j < infos@.len() && i != j implies #[trigger] infos@[i].id
                != #[trigger] infos@[j].id by {
                assert(entries@[i].0 != entries@[j].0);
            }
            assert forall|k: PeerId| #[trigger] reg.contains_key(k) implies exists|i: int|
                0 <= i < infos@.len() && infos@[i].id == k by {
                let i = choose|i: int| 0 <= i < entries@.len() && entries@[i].0 == k;
                assert(infos@[i].id == k);
            }
        }
        Protocol::PeerList { peers: infos }
    }

    /// Whether a registered peer already goes by `name`, ignoring case.
    pub fn is_username_taken(&self, name: &str) -> (res: bool)
        ensures
            res == name_taken(self.registry(), name@),
    {
        let wanted = to_lowercase(name);
        let entries = table_entries(&self.peers);
        let ghost reg = self.registry();
        let n = entries.len();
        let mut i: usize = 0;
        while i < n
            invariant
                n == entries.len(),
                i <= n,
                lists_table(entries@, reg),
                reg == self.registry(),
                wanted@ == lowercase_of(name@),
                forall|j: int|
                    0 <= j < i ==> lowercase_of(#[trigger] entries@[j].1.username@)
                        != lowercase_of(name@),
            decreases n - i,
        {
            let lowered = to_lowercase(entries[i].1.username.as_str());
            if lowered == wanted {
                proof {
                    let id = entries@[i as int].0;
                    assert(reg.contains_key(id));
                    assert(reg[id] == entries@[i as int].1@);
                }
                return true;
            }
            i = i + 1;
        }
        proof {
            assert forall|id: PeerId| #[trigger]
                reg.contains_key(id) implies lowercase_of(reg[id].username) != lowercase_of(
                name@,
            ) by {
                let j = choose|j: int| 0 <= j < entries@.len() && entries@[j].0 == id;
                assert(reg[entries@[j].0] == entries@[j].1@);
            }
        }
        false
    }

    /// Whether `id` is registered.
    pub fn has_peer(&self, id: PeerId) -> (res: bool)
        ensures
            res == self.registry().contains_key(id),
    {
        table_contains(&self.peers, id)
    }

    /// Appends a message to the history, dropping the oldest message when
    /// the history would grow past its limit.
    pub fn record_chat(&mut self, msg: Protocol)
        requires
            old(self).wf(),
        ensures
            final(self).history@ == bounded_push(old(self).history@, msg),
            final(self).registry() == old(self).registry(),
            final(self).invite_token == old(self).invite_token,
            final(self).wf(),
    {
        let ghost h = self.history@;
        self.history.push(msg);
        if self.history.len() > HISTORY_LIMIT {
            self.history.remove(0);
            assert(self.history@ =~= h.push(msg).drop_first());
        }
    }

    /// Copies of the chat messages of the history that were posted in the lobby,
    /// oldest first.
    pub fn lobby_history(&self) -> (res: Vec<Protocol>)
        ensures
            res@ == lobby_messages(self.history@),
            all_chat(res@),
    {
        let lobby = String::from_str("lobby");
        let ghost h = self.history@;
        let ghost pred = |p: Protocol| is_chat_in(p, "lobby"@);
        let mut res: Vec<Protocol> = Vec::new();
        let n = self.history.len();
        for i in 0..n
            invariant
                n == h.len(),
                h == self.history@,
                lobby@ == "lobby"@,
                pred == (|p: Protocol| is_chat_in(p, "lobby"@)),
                res@ == h.take(i as int).filter(pred),
                all_chat(res@),
        {
            reveal_with_fuel(Seq::<_>::filter, 1);
            let msg = &self.history[i];
            assert(h.take(i + 1).drop_last() =~= h.take(i as int));
            assert(h.take(i + 1).last() == h[i as int]);
            match msg {
                Protocol::ChatMessage { channel, .. } => {
                    if *channel == lobby {
                        assert(pred(h[i as int]));
                        res.push(msg.copy_chat());
                    } else {
                        assert(!pred(h[i as int]));
                    }
                },
                _ => {
                    assert(!pred(h[i as int]));
                },
            }
        }
        assert(h.take(n as int) =~= h);
        res
    }

    /// Registers `id` under `username`, in the lobby and not sharing its screen.
    pub fn register(&mut self, id: PeerId, username: String)
        requires
            old(self).wf(),
            !name_taken(old(self).registry(), username@),
        ensures
            final(self).registry() == old(self).registry().insert(
                id,
                PeerView { username: username@, channel: "lobby"@, is_sharing: false },
            ),
            final(self).history == old(self).history,
            final(self).invite_token == old(self).invite_token,
            final(self).wf(),
    {
        let ghost reg = self.registry();
        let peer = Peer { username, channel: String::from_str("lobby"), is_sharing: false };
        table_insert(&mut self.peers, id, peer);
        let ghost reg2 = self.registry();
        assert forall|a: PeerId, b: PeerId|
            #![trigger reg2[a], reg2[b]]
            reg2.contains_key(a) && reg2.contains_key(b) && a != b implies lowercase_of(
            reg2[a].username,
        ) != lowercase_of(reg2[b].username) by {
            if a == id {
                assert(reg.contains_key(b));
                assert(!(reg.contains_key(b) && lowercase_of(reg[b].username) == lowercase_of(username@)));
            } else if b == id {
                assert(reg.contains_key(a));
                assert(!(reg.contains_key(a) && lowercase_of(reg[a].username) == lowercase_of(username@)));
            } else {
                assert(reg[a] == reg2[a] && reg[b] == reg2[b]);
            }
        }
    }

    /// Drops `id` from the registry.
    pub fn unregister(&mut self, id: PeerId)
        requires
            old(self).wf(),
        ensures
            final(self).registry() == old(self).registry().remove(id),
            final(self).history == old(self).history,
            final(self).invite_token == old(self).invite_token,
            final(self).wf(),
    {
        let ghost reg = self.registry();
        table_remove(&mut self.peers, id);
        let ghost reg2 = self.registry();
        assert forall|a: PeerId, b: PeerId|
            #![trigger reg2[a], reg2[b]]
            reg2.contains_key(a) && reg2.contains_key(b) && a != b implies lowercase_of(
            reg2[a].username,
        ) != lowercase_of(reg2[b].username) by {
            assert(reg[a] == reg2[a] && reg[b] == reg2[b]);
        }
    }

    /// Moves a registered peer to `channel`; does nothing if `id` is not registered.
    pub fn set_channel(&mut self, id: PeerId, channel: String)
        requires
            old(self).wf(),
        ensures
            final(self).registry() == (if old(self).registry().contains_key(id) {
                old(self).registry().insert(
                    id,
                    PeerView { channel: channel@, ..old(self).registry()[id] },
                )
            } else {
                old(self).registry()
            }),
            final(self).history == old(self).history,
            final(self).invite_token == old(self).invite_token,
            final(self).wf(),
    {
        let ghost reg = self.registry();
        if let Some(peer) = table_get(&self.peers, id) {
            let updated = Peer { username: peer.username, channel, is_sharing: peer.is_sharing };
            table_insert(&mut self.peers, id, updated);
            let ghost reg2 = self.registry();
            assert forall|a: PeerId, b: PeerId|
                #![trigger reg2[a], reg2[b]]
                reg2.contains_key(a) && reg2.contains_key(b) && a != b implies lowercase_of(
                reg2[a].username,
            ) != lowercase_of(reg2[b].username) by {
                assert(reg[a].username == reg2[a].username && reg[b].username == reg2[b].username);
            }
        }
    }

    /// Records whether a registered peer shares its screen; does nothing if `id`
    /// is not registered.
    pub fn set_sharing(&mut self, id: PeerId, is_sharing: bool)
        requires
            old(self).wf(),
        ensures
            final(self).registry() == (if old(self).registry().contains_key(id) {
                old(self).registry().insert(
                    id,
                    PeerView { is_sharing, ..old(self).registry()[id] },
                )
            } else {
                old(self).registry()
            }),
            final(self).history == old(self).history,
            final(self).invite_token == old(self).invite_token,
            final(self).wf(),
    {
        let ghost reg = self.registry();
        if let Some(peer) = table_get(&self.peers, id) {
            let updated = Peer { username: peer.username, channel: peer.channel, is_sharing };
            table_insert(&mut self.peers, id, updated);
            let ghost reg2 = self.registry();
            assert forall|a: PeerId, b: PeerId|
                #![trigger reg2[a], reg2[b]]
                reg2.contains_key(a) && reg2.contains_key(b) && a != b implies lowercase_of(
                reg2[a].username,
            ) != lowercase_of(reg2[b].username) by {
                assert(reg[a].username == reg2[a].username && reg[b].username == reg2[b].username);
            }
        }
    }
}

} // verus!

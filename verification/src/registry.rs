//! The registry of logged-in peers, held in a `DashMap` keyed by peer id.

use vstd::prelude::*;
use dashmap::DashMap;
use crate::protocol::PeerId;

verus! {

/// The declaration of `dashmap::DashMap`, whose contents Verus does not see.
#[verifier::external_type_specification]
#[verifier::external_body]
#[verifier::reject_recursive_types(K)]
#[verifier::reject_recursive_types(V)]
#[verifier::reject_recursive_types(S)]
pub struct ExDashMap<K, V, S>(DashMap<K, V, S>);

/// The registry itself: a concurrent map from peer id to peer.
pub type PeerTable = DashMap<PeerId, Peer>;

/// A logged-in peer.
#[derive(Debug, Clone, PartialEq)]
pub struct Peer {
    pub username: String,
    pub channel: String,
    pub is_sharing: bool,
}

/// What a registry entry says of a peer.
pub struct PeerView {
    pub username: Seq<char>,
    pub channel: Seq<char>,
    pub is_sharing: bool,
}

impl View for Peer {
    type V = PeerView;

    open spec fn view(&self) -> PeerView {
        PeerView { username: self.username@, channel: self.channel@, is_sharing: self.is_sharing }
    }
}

/// The entries of a peer registry.
pub uninterp spec fn peer_table(m: PeerTable) -> Map<PeerId, PeerView>;

/// `entries` lists the entries of `table`, each key once, in some order.
pub open spec fn lists_table(entries: Seq<(PeerId, Peer)>, table: Map<PeerId, PeerView>) -> bool {
    &&& forall|i: int| 0 <= i < entries.len() ==> #[trigger] table.contains_key(entries[i].0)
    &&& forall|i: int| 0 <= i < entries.len() ==> table[entries[i].0] == #[trigger] entries[i].1@
    &&& forall|i: int, j: int|
        0 <= i < entries.len() && 0 <= j < entries.len() && i != j ==> #[trigger] entries[i].0
            != #[trigger] entries[j].0
    &&& forall|k: PeerId| #[trigger]
        table.contains_key(k) ==> exists|i: int| 0 <= i < entries.len() && entries[i].0 == k
}

/// The registry with no entries.
pub open spec fn no_peers() -> Map<PeerId, PeerView> {
    Map::empty()
}

/// Calls `DashMap::new`, which creates an empty map.
#[verifier::external_body]
pub(crate) fn table_new() -> (res: PeerTable)
    ensures
        peer_table(res) == no_peers(),
{
    DashMap::new()
}

/// Calls `DashMap::insert`, which sets the entry for `id` to `peer`, replacing
/// any former entry for it.
#[verifier::external_body]
pub(crate) fn table_insert(m: &mut PeerTable, id: PeerId, peer: Peer)
    ensures
        peer_table(*final(m)) == peer_table(*old(m)).insert(id, peer@),
{
    m.insert(id, peer);
}

/// Calls `DashMap::remove`, which drops the entry for `id` if there is one.
#[verifier::external_body]
pub(crate) fn table_remove(m: &mut PeerTable, id: PeerId)
    ensures
        peer_table(*final(m)) == peer_table(*old(m)).remove(id),
{
    m.remove(&id);
}

/// Calls `DashMap::contains_key`, which tells whether `id` has an entry.
#[verifier::external_body]
pub(crate) fn table_contains(m: &PeerTable, id: PeerId) -> (res: bool)
    ensures
        res == peer_table(*m).contains_key(id),
{
    m.contains_key(&id)
}

/// Calls `DashMap::get`, which finds the entry for `id`, and copies the peer out.
#[verifier::external_body]
pub(crate) fn table_get(m: &PeerTable, id: PeerId) -> (res: Option<Peer>)
    ensures
        res is Some <==> peer_table(*m).contains_key(id),
        res matches Some(p) ==> p@ == peer_table(*m)[id],
{
    m.get(&id).map(|r| Peer {
        username: r.value().username.clone(),
        channel: r.value().channel.clone(),
        is_sharing: r.value().is_sharing,
    })
}

/// Calls `DashMap::iter`, which visits every entry once, and copies each entry
/// out. The order of the visit follows the map's randomly seeded hasher and is
/// not stated.
#[verifier::external_body]
pub(crate) fn table_entries(m: &PeerTable) -> (res: Vec<(PeerId, Peer)>)
    ensures
        lists_table(res@, peer_table(*m)),
{
    m.iter().map(|r| (*r.key(), Peer {
        username: r.value().username.clone(),
        channel: r.value().channel.clone(),
        is_sharing: r.value().is_sharing,
    })).collect()
}

} // verus!

use vstd::prelude::*;
use crate::dispatch::{PacketKind, ProtocolMetrics};
use crate::heartbeat::{Heartbeat, clamped_latest, clamped_solid, on_heartbeat_received, send_heartbeat};
use crate::peer::{Peer, PeerId, same_bytes};

verus! {

/// Whether two peer ids hold the same bytes.
pub fn same_peer_id(a: &PeerId, b: &PeerId) -> (r: bool)
    ensures
        r == (a.bytes@ == b.bytes@),
{
    same_bytes(&a.bytes, &b.bytes)
}

/// No peer id appears twice.
pub open spec fn ids_distinct(s: Seq<Peer>) -> bool {
    forall|i: int, j: int|
        0 <= i < s.len() && 0 <= j < s.len() && i != j ==> s[i].id.bytes@ != s[j].id.bytes@
}

/// Whether a peer with `id` is among `s`.
pub open spec fn holds_peer(s: Seq<Peer>, id: Seq<u8>) -> bool {
    exists|i: int| 0 <= i < s.len() && s[i].id.bytes@ == id
}

/// Whether `t` is `s` with the record at `i` changed in anything but its id.
pub open spec fn changed_at(s: Seq<Peer>, t: Seq<Peer>, i: int) -> bool {
    &&& t.len() == s.len()
    &&& t[i].id == s[i].id
    &&& forall|k: int| 0 <= k < s.len() && k != i ==> t[k] == s[k]
}

/// The connected peers, each peer id at most once.
pub struct PeerRegistry {
    peers: Vec<Peer>,
}

impl PeerRegistry {
    pub closed spec fn view(&self) -> Seq<Peer> {
        self.peers@
    }

    pub open spec fn wf(&self) -> bool {
        ids_distinct(self.view())
    }

    pub fn new() -> (r: PeerRegistry)
        ensures
            r.wf(),
            r.view() == Seq::<Peer>::empty(),
    {
        PeerRegistry { peers: Vec::new() }
    }

    pub fn len(&self) -> (r: usize)
        ensures
            r == self.view().len(),
    {
        self.peers.len()
    }

    pub fn peer(&self, i: usize) -> (r: &Peer)
        requires
            i < self.view().len(),
        ensures
            *r == self.view()[i as int],
    {
        &self.peers[i]
    }

    /// The position of the peer with `id`, if it is connected.
    pub fn position(&self, id: &PeerId) -> (r: Option<usize>)
        ensures
            r is None <==> !holds_peer(self.view(), id.bytes@),
            r matches Some(i) ==> i < self.view().len() && self.view()[i as int].id.bytes@
                == id.bytes@,
    {
        let mut i: usize = 0;
        while i < self.peers.len()
            invariant
                0 <= i <= self.peers@.len(),
                forall|j: int| 0 <= j < i ==> self.peers@[j].id.bytes@ != id.bytes@,
            decreases self.peers@.len() - i,
        {
            if same_peer_id(&self.peers[i].id, id) {
                return Some(i);
            }
            i += 1;
        }
        None
    }

    /// Adds a peer that has just connected; false, and nothing added, where a peer
    /// with its id is connected already.
    pub fn add(&mut self, peer: Peer) -> (r: bool)
        requires
            old(self).wf(),
        ensures
            final(self).wf(),
            r == !holds_peer(old(self).view(), peer.id.bytes@),
            r ==> final(self).view() == old(self).view().push(peer),
            !r ==> final(self).view() == old(self).view(),
    {
        if self.position(&peer.id).is_some() {
            return false;
        }
        let ghost s = self.view();
        let ghost id = peer.id;
        self.peers.push(peer);
        proof {
            let t = self.view();
            assert forall|i: int, j: int|
                0 <= i < t.len() && 0 <= j < t.len() && i != j implies t[i].id.bytes@
                != t[j].id.bytes@ by {
                if i == s.len() {
                    assert(t[j] == s[j]);
                } else if j == s.len() {
                    assert(t[i] == s[i]);
                } else {
                    assert(t[i] == s[i] && t[j] == s[j]);
                }
            }
        }
        true
    }

    /// Drops the peer at position `i`, which has disconnected.
    pub fn remove_at(&mut self, i: usize)
        requires
            old(self).wf(),
            i < old(self).view().len(),
        ensures
            final(self).wf(),
            final(self).view() == old(self).view().remove(i as int),
    {
        let ghost s = self.view();
        self.peers.remove(i);
        proof {
            let t = self.view();
            assert forall|a: int, b: int|
                0 <= a < t.len() && 0 <= b < t.len() && a != b implies t[a].id.bytes@
                != t[b].id.bytes@ by {
                let a0 = if a < i { a } else { a + 1 };
                let b0 = if b < i { b } else { b + 1 };
                assert(t[a] == s[a0] && t[b] == s[b0]);
            }
        }
    }

    /// Stores a heartbeat received from the peer at `i`, at `now_ms`; the other
    /// peers are left as they were.
    pub fn receive_heartbeat(&mut self, i: usize, h: &Heartbeat, now_ms: u64)
        requires
            old(self).wf(),
            i < old(self).view().len(),
        ensures
            final(self).wf(),
            changed_at(old(self).view(), final(self).view(), i as int),
            final(self).view()[i as int].latest_solid_milestone_index == clamped_solid(*h),
            final(self).view()[i as int].pruned_index == h.pruned_index,
            final(self).view()[i as int].latest_milestone_index == clamped_latest(*h),
            final(self).view()[i as int].connected_peers == h.connected_peers,
            final(self).view()[i as int].synced_peers == h.synced_peers,
            final(self).view()[i as int].heartbeat_received_timestamp == now_ms,
            final(self).view()[i as int].heartbeat_sent_timestamp == old(
                self,
            ).view()[i as int].heartbeat_sent_timestamp,
            final(self).view()[i as int].ordered(),
    {
        let ghost s = self.view();
        let mut p = self.peers.remove(i);
        on_heartbeat_received(&mut p, h, now_ms);
        self.peers.insert(i, p);
        proof {
            assert(self.view() =~= s.update(i as int, p));
            lemma_update_keeps_distinct(s, i as int, p);
        }
    }

    /// Applies the outcome of handing a heartbeat for the peer at `i` to the
    /// transport; the other peers are left as they were.
    pub fn send_heartbeat_at(&mut self, i: usize, metrics: &mut ProtocolMetrics, sent: bool, now_ms: u64)
        requires
            old(self).wf(),
            i < old(self).view().len(),
        ensures
            final(self).wf(),
            final(self).view().len() == old(self).view().len(),
            forall|k: int| 0 <= k < old(self).view().len() && k != i ==> final(self).view()[k] == old(self).view()[k],
            sent ==> *final(metrics) == old(metrics).bump(PacketKind::Heartbeat),
            sent ==> final(self).view()[i as int] == (Peer {
                heartbeat_sent_timestamp: now_ms,
                ..old(self).view()[i as int]
            }),
            !sent ==> *final(metrics) == *old(metrics) && final(self).view() == old(self).view(),
    {
        let ghost s = self.view();
        let mut p = self.peers.remove(i);
        send_heartbeat(&mut p, metrics, sent, now_ms);
        self.peers.insert(i, p);
        proof {
            assert(self.view() =~= s.update(i as int, p));
            lemma_update_keeps_distinct(s, i as int, p);
            if !sent {
                assert(self.view() =~= s);
            }
        }
    }
}

/// Changing a record in anything but its id keeps the ids distinct.
proof fn lemma_update_keeps_distinct(s: Seq<Peer>, i: int, p: Peer)
    requires
        ids_distinct(s),
        0 <= i < s.len(),
        p.id == s[i].id,
    ensures
        ids_distinct(s.update(i, p)),
{
    let t = s.update(i, p);
    assert forall|a: int, b: int|
        0 <= a < t.len() && 0 <= b < t.len() && a != b implies t[a].id.bytes@ != t[b].id.bytes@ by {
        assert(t[a].id == s[a].id && t[b].id == s[b].id);
    }
}

} // verus!

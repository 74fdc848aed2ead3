use vstd::prelude::*;

verus! {

/// An identifier of a remote peer, as raw bytes.
#[derive(Clone, Copy, Debug)]
pub struct PeerId {
    pub bytes: [u8; 32],
}

/// Whether `index` lies in the window `(pruned, upper]`.
pub open spec fn in_window(pruned: u32, upper: u32, index: u32) -> bool {
    pruned < index && index <= upper
}

/// Whether two 32-byte identifiers hold the same bytes.
pub(crate) fn same_bytes(a: &[u8; 32], b: &[u8; 32]) -> (r: bool)
    ensures
        r == (a@ == b@),
{
    let mut i: usize = 0;
    while i < 32
        invariant
            0 <= i <= 32,
            a@.len() == 32,
            b@.len() == 32,
            forall|j: int| 0 <= j < i ==> a@[j] == b@[j],
        decreases 32 - i,
    {
        if a[i] != b[i] {
            return false;
        }
        i += 1;
    }
    proof {
        assert(a@ =~= b@);
    }
    true
}

/// What one remote peer has advertised of its progress, with the times of the
/// last heartbeat exchanged with it (milliseconds since the epoch).
pub struct Peer {
    pub id: PeerId,
    pub address: String,
    pub latest_solid_milestone_index: u32,
    pub pruned_index: u32,
    pub latest_milestone_index: u32,
    pub connected_peers: u8,
    pub synced_peers: u8,
    pub heartbeat_sent_timestamp: u64,
    pub heartbeat_received_timestamp: u64,
}

impl Peer {
    /// The data window is ordered: pruned, then solid, then latest.
    pub open spec fn ordered(&self) -> bool {
        self.pruned_index <= self.latest_solid_milestone_index
            && self.latest_solid_milestone_index <= self.latest_milestone_index
    }

    /// Whether the indices and counters of two records agree, whatever their identity.
    pub open spec fn same_progress(&self, o: &Peer) -> bool {
        &&& self.latest_solid_milestone_index == o.latest_solid_milestone_index
        &&& self.pruned_index == o.pruned_index
        &&& self.latest_milestone_index == o.latest_milestone_index
        &&& self.connected_peers == o.connected_peers
        &&& self.synced_peers == o.synced_peers
    }

    /// A fresh record for a peer that has just connected: every index, count and time is zero.
    pub fn new(id: PeerId, address: String) -> (r: Peer)
        ensures
            r.id == id,
            r.address@ == address@,
            r.latest_solid_milestone_index == 0,
            r.pruned_index == 0,
            r.latest_milestone_index == 0,
            r.connected_peers == 0,
            r.synced_peers == 0,
            r.heartbeat_sent_timestamp == 0,
            r.heartbeat_received_timestamp == 0,
            r.ordered(),
    {
        Peer {
            id,
            address,
            latest_solid_milestone_index: 0,
            pruned_index: 0,
            latest_milestone_index: 0,
            connected_peers: 0,
            synced_peers: 0,
            heartbeat_sent_timestamp: 0,
            heartbeat_received_timestamp: 0,
        }
    }

    pub fn set_latest_solid_milestone_index(&mut self, index: u32)
        ensures
            *final(self) == (Peer { latest_solid_milestone_index: index, ..*old(self) }),
    {
        self.latest_solid_milestone_index = index;
    }

    pub fn latest_solid_milestone_index(&self) -> (r: u32)
        ensures
            r == self.latest_solid_milestone_index,
    {
        self.latest_solid_milestone_index
    }

    pub fn set_pruned_index(&mut self, index: u32)
        ensures
            *final(self) == (Peer { pruned_index: index, ..*old(self) }),
    {
        self.pruned_index = index;
    }

    pub fn pruned_index(&self) -> (r: u32)
        ensures
            r == self.pruned_index,
    {
        self.pruned_index
    }

    pub fn set_latest_milestone_index(&mut self, index: u32)
        ensures
            *final(self) == (Peer { latest_milestone_index: index, ..*old(self) }),
    {
        self.latest_milestone_index = index;
    }

    pub fn latest_milestone_index(&self) -> (r: u32)
        ensures
            r == self.latest_milestone_index,
    {
        self.latest_milestone_index
    }

    pub fn set_connected_peers(&mut self, connected_peers: u8)
        ensures
            *final(self) == (Peer { connected_peers, ..*old(self) }),
    {
        self.connected_peers = connected_peers;
    }

    pub fn connected_peers(&self) -> (r: u8)
        ensures
            r == self.connected_peers,
    {
        self.connected_peers
    }

    pub fn set_synced_peers(&mut self, synced_peers: u8)
        ensures
            *final(self) == (Peer { synced_peers, ..*old(self) }),
    {
        self.synced_peers = synced_peers;
    }

    pub fn synced_peers(&self) -> (r: u8)
        ensures
            r == self.synced_peers,
    {
        self.synced_peers
    }

    /// Records that a heartbeat went out at `now_ms`.
    pub fn mark_heartbeat_sent(&mut self, now_ms: u64)
        ensures
            *final(self) == (Peer { heartbeat_sent_timestamp: now_ms, ..*old(self) }),
    {
        self.heartbeat_sent_timestamp = now_ms;
    }

    /// Records that a heartbeat went out, at the time the clock gives now.
    pub fn set_heartbeat_sent_timestamp(&mut self)
        ensures
            final(self).same_progress(old(self)),
            final(self).id == old(self).id,
            final(self).address == old(self).address,
            final(self).heartbeat_received_timestamp == old(self).heartbeat_received_timestamp,
    {
        match unix_millis() {
            Some(now_ms) => self.mark_heartbeat_sent(now_ms),
            None => {},
        }
    }

    pub fn heartbeat_sent_timestamp(&self) -> (r: u64)
        ensures
            r == self.heartbeat_sent_timestamp,
    {
        self.heartbeat_sent_timestamp
    }

    /// Records that a heartbeat came in at `now_ms`.
    pub fn mark_heartbeat_received(&mut self, now_ms: u64)
        ensures
            *final(self) == (Peer { heartbeat_received_timestamp: now_ms, ..*old(self) }),
    {
        self.heartbeat_received_timestamp = now_ms;
    }

    /// Records that a heartbeat came in, at the time the clock gives now.
    pub fn set_heartbeat_received_timestamp(&mut self)
        ensures
            final(self).same_progress(old(self)),
            final(self).id == old(self).id,
            final(self).address == old(self).address,
            final(self).heartbeat_sent_timestamp == old(self).heartbeat_sent_timestamp,
    {
        match unix_millis() {
            Some(now_ms) => self.mark_heartbeat_received(now_ms),
            None => {},
        }
    }

    pub fn heartbeat_received_timestamp(&self) -> (r: u64)
        ensures
            r == self.heartbeat_received_timestamp,
    {
        self.heartbeat_received_timestamp
    }

    /// Whether the peer holds the solidified data of milestone `index`.
    pub fn has_data(&self, index: u32) -> (r: bool)
        ensures
            r == in_window(self.pruned_index, self.latest_solid_milestone_index, index),
    {
        index > self.pruned_index && index <= self.latest_solid_milestone_index
    }

    /// Whether the peer has at least seen milestone `index` and not pruned it.
    pub fn maybe_has_data(&self, index: u32) -> (r: bool)
        ensures
            r == in_window(self.pruned_index, self.latest_milestone_index, index),
    {
        index > self.pruned_index && index <= self.latest_milestone_index
    }
}

/// Relies on std's SystemTime::now and duration_since(UNIX_EPOCH): the milliseconds
/// since the epoch, or `None` where the clock stands before it. Nothing is known of the value.
#[verifier::external_body]
fn unix_millis() -> (r: Option<u64>) {
    match std::time::SystemTime::now().duration_since(std::time::UNIX_EPOCH) {
        Ok(d) => Some(d.as_millis() as u64),
        Err(_) => None,
    }
}

/// A peer that holds the solid data of a milestone has also seen it.
pub proof fn lemma_has_data_implies_maybe(p: Peer, index: u32)
    requires
        p.ordered(),
        in_window(p.pruned_index, p.latest_solid_milestone_index, index),
    ensures
        in_window(p.pruned_index, p.latest_milestone_index, index),
{
}

/// The window of `has_data` is open below and closed above: the pruned index
/// itself and the index just past the solid one are outside it.
pub proof fn lemma_has_data_bounds(p: Peer)
    ensures
        !in_window(p.pruned_index, p.latest_solid_milestone_index, p.pruned_index),
        p.latest_solid_milestone_index < u32::MAX ==> !in_window(
            p.pruned_index,
            p.latest_solid_milestone_index,
            (p.latest_solid_milestone_index + 1) as u32,
        ),
{
}

} // verus!

use vstd::prelude::*;
use crate::dispatch::{PacketKind, ProtocolMetrics};
use crate::peer::{Peer, PeerId};
use crate::registry::PeerRegistry;

verus! {

/// The sync progress a node advertises to its peers.
#[derive(Clone, Copy, Debug, PartialEq, Eq, Structural)]
pub struct Heartbeat {
    pub latest_solid_milestone_index: u32,
    pub pruned_index: u32,
    pub latest_milestone_index: u32,
    pub connected_peers: u8,
    pub synced_peers: u8,
}

pub open spec fn max32(a: u32, b: u32) -> u32 {
    if a < b { b } else { a }
}

/// The solid index stored for a heartbeat: a peer cannot have pruned past what it has solidified.
pub open spec fn clamped_solid(h: Heartbeat) -> u32 {
    max32(h.latest_solid_milestone_index, h.pruned_index)
}

/// The latest index stored for a heartbeat: never below the stored solid index.
pub open spec fn clamped_latest(h: Heartbeat) -> u32 {
    max32(h.latest_milestone_index, clamped_solid(h))
}

/// The number of sends that went through.
pub open spec fn count_sent(s: Seq<bool>) -> nat
    decreases s.len(),
{
    if s.len() == 0 {
        0
    } else {
        count_sent(s.drop_last()) + if s.last() {
            1nat
        } else {
            0nat
        }
    }
}

/// A counter raised by `k`, stopping at its largest value.
pub open spec fn raised(n: u64, k: nat) -> u64 {
    if n + k < u64::MAX {
        (n + k) as u64
    } else {
        u64::MAX
    }
}

/// Packages the node's own progress into a heartbeat.
pub fn build_heartbeat(
    latest_solid_milestone_index: u32,
    pruned_index: u32,
    latest_milestone_index: u32,
    connected_peers: u8,
    synced_peers: u8,
) -> (r: Heartbeat)
    ensures
        r == (Heartbeat {
            latest_solid_milestone_index,
            pruned_index,
            latest_milestone_index,
            connected_peers,
            synced_peers,
        }),
{
    Heartbeat {
        latest_solid_milestone_index,
        pruned_index,
        latest_milestone_index,
        connected_peers,
        synced_peers,
    }
}

/// Stores what a heartbeat from `peer` advertises, received at `now_ms`. An
/// out-of-order window is clamped: the solid index is raised to the pruned one,
/// and the latest index to the solid one.
pub fn on_heartbeat_received(peer: &mut Peer, h: &Heartbeat, now_ms: u64)
    ensures
        final(peer).pruned_index == h.pruned_index,
        final(peer).latest_solid_milestone_index == clamped_solid(*h),
        final(peer).latest_milestone_index == clamped_latest(*h),
        final(peer).connected_peers == h.connected_peers,
        final(peer).synced_peers == h.synced_peers,
        final(peer).heartbeat_received_timestamp == now_ms,
        final(peer).heartbeat_sent_timestamp == old(peer).heartbeat_sent_timestamp,
        final(peer).id == old(peer).id,
        final(peer).address == old(peer).address,
        final(peer).ordered(),
{
    let solid = if h.latest_solid_milestone_index < h.pruned_index {
        h.pruned_index
    } else {
        h.latest_solid_milestone_index
    };
    let latest = if h.latest_milestone_index < solid {
        solid
    } else {
        h.latest_milestone_index
    };
    peer.set_latest_solid_milestone_index(solid);
    peer.set_pruned_index(h.pruned_index);
    peer.set_latest_milestone_index(latest);
    peer.set_connected_peers(h.connected_peers);
    peer.set_synced_peers(h.synced_peers);
    peer.mark_heartbeat_received(now_ms);
}

/// Applies the outcome of handing one heartbeat for `peer` to the transport: on
/// success the heartbeat is counted and the send time recorded; on failure nothing changes.
pub fn send_heartbeat(peer: &mut Peer, metrics: &mut ProtocolMetrics, sent: bool, now_ms: u64)
    ensures
        sent ==> *final(metrics) == old(metrics).bump(PacketKind::Heartbeat),
        sent ==> *final(peer) == (Peer {
            heartbeat_sent_timestamp: now_ms,
            ..*old(peer)
        }),
        !sent ==> *final(metrics) == *old(metrics) && *final(peer) == *old(peer),
        now_ms >= old(peer).heartbeat_sent_timestamp ==> final(peer).heartbeat_sent_timestamp
            >= old(peer).heartbeat_sent_timestamp,
{
    metrics.record_dispatch(PacketKind::Heartbeat, sent);
    if sent {
        peer.mark_heartbeat_sent(now_ms);
    }
}

/// The peers a broadcast goes to, in order: one send for each connected peer,
/// no peer twice.
pub fn heartbeat_targets(peers: &PeerRegistry) -> (r: Vec<PeerId>)
    requires
        peers.wf(),
    ensures
        r@.len() == peers.view().len(),
        forall|i: int| 0 <= i < r@.len() ==> r@[i] == peers.view()[i].id,
        forall|i: int, j: int|
            0 <= i < r@.len() && 0 <= j < r@.len() && i != j ==> r@[i].bytes@ != r@[j].bytes@,
{
    let mut r: Vec<PeerId> = Vec::new();
    let mut i: usize = 0;
    while i < peers.len()
        invariant
            0 <= i <= peers.view().len(),
            r@.len() == i,
            forall|j: int| 0 <= j < i ==> r@[j] == peers.view()[j].id,
        decreases peers.view().len() - i,
    {
        r.push(peers.peer(i).id);
        i += 1;
    }
    r
}

/// Applies the outcomes of a broadcast, `sent[i]` being that of the send to the
/// peer at `i`: every send that went through is counted and its peer's send time
/// recorded; the other peers are left as they were.
pub fn broadcast_heartbeat(
    peers: &mut PeerRegistry,
    metrics: &mut ProtocolMetrics,
    sent: &Vec<bool>,
    now_ms: u64,
)
    requires
        old(peers).wf(),
        sent@.len() == old(peers).view().len(),
    ensures
        final(peers).wf(),
        final(peers).view().len() == old(peers).view().len(),
        forall|i: int|
            0 <= i < old(peers).view().len() ==> if sent@[i] {
                final(peers).view()[i] == (Peer {
                    heartbeat_sent_timestamp: now_ms,
                    ..old(peers).view()[i]
                })
            } else {
                final(peers).view()[i] == old(peers).view()[i]
            },
        forall|i: int|
            0 <= i < old(peers).view().len() && now_ms >= old(peers).view()[i].heartbeat_sent_timestamp
                ==> final(peers).view()[i].heartbeat_sent_timestamp >= old(
                peers,
            ).view()[i].heartbeat_sent_timestamp,
        *final(metrics) == (ProtocolMetrics {
            heartbeats_sent: raised(old(metrics).heartbeats_sent, count_sent(sent@)),
            ..*old(metrics)
        }),
{
    let mut i: usize = 0;
    while i < sent.len()
        invariant
            0 <= i <= sent@.len(),
            sent@.len() == old(peers).view().len(),
            peers.wf(),
            peers.view().len() == old(peers).view().len(),
            forall|j: int|
                0 <= j < i ==> if sent@[j] {
                    peers.view()[j] == (Peer {
                        heartbeat_sent_timestamp: now_ms,
                        ..old(peers).view()[j]
                    })
                } else {
                    peers.view()[j] == old(peers).view()[j]
                },
            forall|j: int| i <= j < peers.view().len() ==> peers.view()[j] == old(peers).view()[j],
            *metrics == (ProtocolMetrics {
                heartbeats_sent: raised(old(metrics).heartbeats_sent, count_sent(sent@.subrange(0, i as int))),
                ..*old(metrics)
            }),
        decreases sent@.len() - i,
    {
        peers.send_heartbeat_at(i, metrics, sent[i], now_ms);
        proof {
            assert(sent@.subrange(0, i + 1).drop_last() =~= sent@.subrange(0, i as int));
        }
        i += 1;
    }
    proof {
        assert(sent@.subrange(0, sent@.len() as int) =~= sent@);
    }
}

} // verus!

use bee_protocol::dispatch::{PacketKind, ProtocolMetrics};
use bee_protocol::heartbeat::{
    broadcast_heartbeat, build_heartbeat, heartbeat_targets, on_heartbeat_received, send_heartbeat,
};
use bee_protocol::peer::{Peer, PeerId};
use bee_protocol::registry::PeerRegistry;

fn peer(n: u8) -> Peer {
    Peer::new(PeerId { bytes: [n; 32] }, format!("/ip4/10.0.0.{}/tcp/15600", n))
}

#[test]
fn build_heartbeat_keeps_fields() {
    let h = build_heartbeat(5, 2, 8, 3, 1);
    assert_eq!(h.latest_solid_milestone_index, 5);
    assert_eq!(h.pruned_index, 2);
    assert_eq!(h.latest_milestone_index, 8);
    assert_eq!(h.connected_peers, 3);
    assert_eq!(h.synced_peers, 1);
}

#[test]
fn received_heartbeat_is_clamped() {
    let mut p = peer(1);
    on_heartbeat_received(&mut p, &build_heartbeat(4, 10, 12, 6, 5), 77);
    assert_eq!(p.latest_solid_milestone_index(), 10);
    assert_eq!(p.pruned_index(), 10);
    assert_eq!(p.latest_milestone_index(), 12);
    assert_eq!(p.connected_peers(), 6);
    assert_eq!(p.synced_peers(), 5);
    assert_eq!(p.heartbeat_received_timestamp(), 77);
}

#[test]
fn received_heartbeat_latest_raised_to_solid() {
    let mut p = peer(2);
    on_heartbeat_received(&mut p, &build_heartbeat(20, 5, 15, 0, 0), 1);
    assert_eq!(p.latest_solid_milestone_index(), 20);
    assert_eq!(p.latest_milestone_index(), 20);
    on_heartbeat_received(&mut p, &build_heartbeat(30, 25, 40, 0, 0), 2);
    assert_eq!(p.latest_solid_milestone_index(), 30);
    assert_eq!(p.pruned_index(), 25);
    assert_eq!(p.latest_milestone_index(), 40);
}

#[test]
fn send_heartbeat_counts_success_only() {
    let mut p = peer(3);
    let mut m = ProtocolMetrics::new();
    send_heartbeat(&mut p, &mut m, false, 500);
    assert_eq!(m.count(PacketKind::Heartbeat), 0);
    assert_eq!(p.heartbeat_sent_timestamp(), 0);
    send_heartbeat(&mut p, &mut m, true, 500);
    assert_eq!(m.count(PacketKind::Heartbeat), 1);
    assert_eq!(p.heartbeat_sent_timestamp(), 500);
}

#[test]
fn broadcast_reaches_every_peer() {
    let mut second = peer(2);
    second.mark_heartbeat_sent(900);
    let mut peers = PeerRegistry::new();
    assert!(peers.add(peer(1)));
    assert!(peers.add(second));
    assert!(peers.add(peer(3)));
    let targets = heartbeat_targets(&peers);
    assert_eq!(targets.len(), 3);
    assert_eq!(targets[2].bytes, [3; 32]);
    let mut m = ProtocolMetrics::new();
    broadcast_heartbeat(&mut peers, &mut m, &vec![true, false, true], 1000);
    assert_eq!(m.count(PacketKind::Heartbeat), 2);
    assert_eq!(peers.peer(0).heartbeat_sent_timestamp(), 1000);
    assert_eq!(peers.peer(1).heartbeat_sent_timestamp(), 900);
    assert_eq!(peers.peer(2).heartbeat_sent_timestamp(), 1000);
    assert_eq!(m.count(PacketKind::MilestoneRequest), 0);
}

#[test]
fn broadcast_to_no_peers() {
    let mut peers = PeerRegistry::new();
    let mut m = ProtocolMetrics::new();
    assert_eq!(heartbeat_targets(&peers).len(), 0);
    broadcast_heartbeat(&mut peers, &mut m, &Vec::new(), 5);
    assert_eq!(m.count(PacketKind::Heartbeat), 0);
}

#[test]
fn dispatch_counts_per_kind() {
    let mut m = ProtocolMetrics::new();
    m.record_dispatch(PacketKind::MilestoneRequest, true);
    m.record_dispatch(PacketKind::Message, true);
    m.record_dispatch(PacketKind::Message, true);
    m.record_dispatch(PacketKind::MessageRequest, false);
    assert_eq!(m.count(PacketKind::MilestoneRequest), 1);
    assert_eq!(m.count(PacketKind::Message), 2);
    assert_eq!(m.count(PacketKind::MessageRequest), 0);
    assert_eq!(m.count(PacketKind::Heartbeat), 0);
}

#[test]
fn dispatch_counter_stops_at_largest() {
    let mut m = ProtocolMetrics::new();
    m.heartbeats_sent = u64::MAX;
    m.record_dispatch(PacketKind::Heartbeat, true);
    assert_eq!(m.count(PacketKind::Heartbeat), u64::MAX);
}

#[test]
fn registry_rejects_duplicate_id() {
    let mut peers = PeerRegistry::new();
    assert!(peers.add(peer(1)));
    assert!(!peers.add(peer(1)));
    assert!(peers.add(peer(2)));
    assert_eq!(peers.len(), 2);
    assert_eq!(peers.position(&PeerId { bytes: [2; 32] }), Some(1));
    assert_eq!(peers.position(&PeerId { bytes: [3; 32] }), None);
    peers.remove_at(0);
    assert_eq!(peers.len(), 1);
    assert_eq!(peers.position(&PeerId { bytes: [2; 32] }), Some(0));
    assert!(peers.add(peer(1)));
}

#[test]
fn registry_receives_heartbeat_for_one_peer() {
    let mut peers = PeerRegistry::new();
    assert!(peers.add(peer(1)));
    assert!(peers.add(peer(2)));
    peers.receive_heartbeat(1, &build_heartbeat(4, 10, 12, 3, 2), 40);
    assert_eq!(peers.peer(1).latest_solid_milestone_index(), 10);
    assert_eq!(peers.peer(1).heartbeat_received_timestamp(), 40);
    assert_eq!(peers.peer(0).latest_solid_milestone_index(), 0);
    peers.receive_heartbeat(1, &build_heartbeat(11, 10, 12, 3, 2), 30);
    assert_eq!(peers.peer(1).heartbeat_received_timestamp(), 30);
    assert_eq!(peers.peer(1).latest_solid_milestone_index(), 11);
}

#[test]
fn registry_send_heartbeat_at_one_peer() {
    let mut peers = PeerRegistry::new();
    assert!(peers.add(peer(1)));
    assert!(peers.add(peer(2)));
    let mut m = ProtocolMetrics::new();
    peers.send_heartbeat_at(0, &mut m, true, 70);
    peers.send_heartbeat_at(1, &mut m, false, 70);
    assert_eq!(peers.peer(0).heartbeat_sent_timestamp(), 70);
    assert_eq!(peers.peer(1).heartbeat_sent_timestamp(), 0);
    assert_eq!(m.count(PacketKind::Heartbeat), 1);
}

#[test]
fn send_heartbeat_stores_earlier_reading() {
    let mut p = peer(4);
    let mut m = ProtocolMetrics::new();
    send_heartbeat(&mut p, &mut m, true, 800);
    send_heartbeat(&mut p, &mut m, true, 600);
    assert_eq!(p.heartbeat_sent_timestamp(), 600);
    assert_eq!(m.count(PacketKind::Heartbeat), 2);
}

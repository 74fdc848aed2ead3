use bee_protocol::peer::PeerId;
use bee_protocol::planner::{
    decide_message_request, decide_milestone_request, plan_latest_milestone_request, plan_message_request, plan_milestone_request,
    settle_milestone_request, MessageRequesterEvent, MilestoneRequesterEvent, RequestOutcome,
};
use bee_protocol::requests::{MessageKey, RequestedMessages, RequestedMilestones};
use tokio::sync::mpsc::unbounded_channel;

#[test]
fn milestone_in_ledger_emits_nothing() {
    let (tx, mut rx) = unbounded_channel::<MilestoneRequesterEvent>();
    let mut t = RequestedMilestones::new();
    assert_eq!(plan_milestone_request(&mut t, &tx, true, 5, None), RequestOutcome::InLedger);
    assert!(t.try_register(6, None));
    assert_eq!(plan_milestone_request(&mut t, &tx, true, 6, None), RequestOutcome::InLedger);
    assert!(rx.try_recv().is_err());
    assert_eq!(t.len(), 1);
}

#[test]
fn milestone_second_request_emits_nothing() {
    let (tx, mut rx) = unbounded_channel::<MilestoneRequesterEvent>();
    let mut t = RequestedMilestones::new();
    let to = Some(PeerId { bytes: [7; 32] });
    assert_eq!(plan_milestone_request(&mut t, &tx, false, 9, to), RequestOutcome::Requested);
    assert_eq!(
        plan_milestone_request(&mut t, &tx, false, 9, None),
        RequestOutcome::AlreadyRequested
    );
    let ev = rx.try_recv().unwrap();
    assert_eq!(ev.index, 9);
    assert_eq!(ev.to.unwrap().bytes, [7; 32]);
    assert!(rx.try_recv().is_err());
}

#[test]
fn latest_milestone_uses_index_zero() {
    let (tx, mut rx) = unbounded_channel::<MilestoneRequesterEvent>();
    let mut t = RequestedMilestones::new();
    assert_eq!(plan_latest_milestone_request(&mut t, &tx, false, None), RequestOutcome::Requested);
    assert!(t.contains(0));
    assert_eq!(rx.try_recv().unwrap().index, 0);
}

#[test]
fn milestone_closed_channel_forgets_key() {
    let (tx, rx) = unbounded_channel::<MilestoneRequesterEvent>();
    drop(rx);
    let mut t = RequestedMilestones::new();
    assert_eq!(plan_milestone_request(&mut t, &tx, false, 3, None), RequestOutcome::ChannelClosed);
    assert!(!t.contains(3));
    assert_eq!(t.len(), 0);
}

#[test]
fn settle_keeps_or_forgets() {
    let mut t = RequestedMilestones::new();
    assert!(t.try_register(4, None));
    assert_eq!(settle_milestone_request(&mut t, 4, true), RequestOutcome::Requested);
    assert!(t.contains(4));
    assert_eq!(settle_milestone_request(&mut t, 4, false), RequestOutcome::ChannelClosed);
    assert!(!t.contains(4));
}

#[test]
fn milestone_request_round_trip() {
    // Peer A advertises solid 100, pruned 0, latest 105; milestone 102 is missing locally.
    let mut a = bee_protocol::peer::Peer::new(PeerId { bytes: [10; 32] }, String::from("a"));
    let hb = bee_protocol::heartbeat::build_heartbeat(100, 0, 105, 1, 1);
    bee_protocol::heartbeat::on_heartbeat_received(&mut a, &hb, 1);
    assert!(!a.has_data(102));
    assert!(a.maybe_has_data(102));
    let (tx, mut rx) = unbounded_channel::<MilestoneRequesterEvent>();
    let mut t = RequestedMilestones::new();
    assert_eq!(plan_milestone_request(&mut t, &tx, false, 102, Some(a.id)), RequestOutcome::Requested);
    assert_eq!(
        plan_milestone_request(&mut t, &tx, false, 102, None),
        RequestOutcome::AlreadyRequested
    );
    assert_eq!(rx.try_recv().unwrap().index, 102);
    assert!(rx.try_recv().is_err());
    t.remove(102);
    assert_eq!(plan_milestone_request(&mut t, &tx, false, 102, None), RequestOutcome::Requested);
    assert_eq!(rx.try_recv().unwrap().index, 102);
}

#[test]
fn message_request_outcomes() {
    let (tx, mut rx) = unbounded_channel::<MessageRequesterEvent>();
    let mut t = RequestedMessages::new();
    let id = MessageKey { bytes: [5; 32] };
    assert_eq!(plan_message_request(&mut t, &tx, true, false, id, 1), RequestOutcome::InLedger);
    assert_eq!(
        plan_message_request(&mut t, &tx, false, true, id, 1),
        RequestOutcome::SolidEntryPoint
    );
    assert_eq!(plan_message_request(&mut t, &tx, false, false, id, 8), RequestOutcome::Requested);
    assert_eq!(
        plan_message_request(&mut t, &tx, false, false, id, 9),
        RequestOutcome::AlreadyRequested
    );
    let ev = rx.try_recv().unwrap();
    assert_eq!(ev.message_id.bytes, [5; 32]);
    assert_eq!(ev.index, 8);
    assert!(rx.try_recv().is_err());
    assert_eq!(t.len(), 1);
}

#[test]
fn message_closed_channel_forgets_key() {
    let (tx, rx) = unbounded_channel::<MessageRequesterEvent>();
    drop(rx);
    let mut t = RequestedMessages::new();
    assert!(t.try_register(MessageKey { bytes: [1; 32] }, 1));
    let id = MessageKey { bytes: [2; 32] };
    assert_eq!(
        plan_message_request(&mut t, &tx, false, false, id, 3),
        RequestOutcome::ChannelClosed
    );
    assert!(!t.contains(&id));
    assert_eq!(t.len(), 1);
}

#[test]
fn decide_milestone_returns_event() {
    let mut t = RequestedMilestones::new();
    let to = Some(PeerId { bytes: [4; 32] });
    let ev = decide_milestone_request(&mut t, false, 11, to).unwrap();
    assert_eq!(ev.index, 11);
    assert_eq!(ev.to.unwrap().bytes, [4; 32]);
    assert!(t.contains(11));
    assert!(decide_milestone_request(&mut t, false, 11, None).is_none());
    assert!(decide_milestone_request(&mut t, true, 12, None).is_none());
    assert!(!t.contains(12));
    t.remove(11);
    assert_eq!(decide_milestone_request(&mut t, false, 11, None).unwrap().index, 11);
}

#[test]
fn decide_message_returns_event() {
    let mut t = RequestedMessages::new();
    let id = MessageKey { bytes: [6; 32] };
    assert!(decide_message_request(&mut t, false, true, id, 2).is_none());
    assert!(decide_message_request(&mut t, true, false, id, 2).is_none());
    assert_eq!(t.len(), 0);
    let ev = decide_message_request(&mut t, false, false, id, 2).unwrap();
    assert_eq!(ev.message_id.bytes, [6; 32]);
    assert_eq!(ev.index, 2);
    assert!(decide_message_request(&mut t, false, false, id, 3).is_none());
    assert_eq!(t.len(), 1);
}

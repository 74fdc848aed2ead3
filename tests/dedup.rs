use bee_protocol::peer::PeerId;
use bee_protocol::requests::{same_message_id, MessageKey, RequestedMessages, RequestedMilestones};

#[test]
fn milestone_registered_once() {
    let mut t = RequestedMilestones::new();
    assert!(t.try_register(42, None));
    assert!(!t.try_register(42, Some(PeerId { bytes: [9; 32] })));
    assert!(t.contains(42));
    assert_eq!(t.len(), 1);
}

#[test]
fn milestone_remove_then_register_again() {
    let mut t = RequestedMilestones::new();
    assert!(t.try_register(7, None));
    t.remove(7);
    assert!(!t.contains(7));
    assert!(t.try_register(7, None));
}

#[test]
fn milestone_remove_absent_keeps_size() {
    let mut t = RequestedMilestones::new();
    assert!(t.try_register(1, None));
    assert!(t.try_register(2, None));
    t.remove(3);
    assert_eq!(t.len(), 2);
    let mut empty = RequestedMilestones::new();
    empty.remove(0);
    assert_eq!(empty.len(), 0);
}

#[test]
fn message_registered_once() {
    let mut t = RequestedMessages::new();
    let id = MessageKey { bytes: [3; 32] };
    assert!(t.try_register(id, 10));
    assert!(!t.try_register(MessageKey { bytes: [3; 32] }, 11));
    assert!(t.contains(&id));
    assert_eq!(t.len(), 1);
    assert_eq!(t.entry_at(0).index, 10);
}

#[test]
fn message_ids_differing_in_last_byte() {
    let a = MessageKey { bytes: [0; 32] };
    let mut bytes = [0u8; 32];
    bytes[31] = 1;
    let b = MessageKey { bytes };
    assert!(!same_message_id(&a, &b));
    assert!(same_message_id(&a, &MessageKey { bytes: [0; 32] }));
    let mut t = RequestedMessages::new();
    assert!(t.try_register(a, 1));
    assert!(t.try_register(b, 1));
    assert_eq!(t.len(), 2);
}

#[test]
fn message_remove_absent_keeps_size() {
    let mut t = RequestedMessages::new();
    assert!(t.try_register(MessageKey { bytes: [1; 32] }, 1));
    t.remove(&MessageKey { bytes: [2; 32] });
    assert_eq!(t.len(), 1);
    t.remove(&MessageKey { bytes: [1; 32] });
    assert_eq!(t.len(), 0);
    assert!(!t.contains(&MessageKey { bytes: [1; 32] }));
}


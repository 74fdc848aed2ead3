use vstd::prelude::*;
use tokio::sync::mpsc::UnboundedSender;
use crate::peer::PeerId;
use crate::requests::{MessageKey, MessageEntry, RequestedMessages, RequestedMilestones, holds_id};

verus! {

#[verifier::external_type_specification]
#[verifier::external_body]
#[verifier::reject_recursive_types(T)]
pub struct ExUnboundedSender<T>(UnboundedSender<T>);

/// Relies on tokio's UnboundedSender::send: the event is queued for the receiver,
/// or handed back as an error where the receiving half is closed or gone. Which of
/// the two happens depends on the receiver, so nothing is promised of the result.
/// (tokio aborts the process only once the count of queued events overflows its
/// counter, which needs more events than memory can hold.)
#[verifier::external_body]
fn emit<T>(tx: &UnboundedSender<T>, event: T) -> (sent: bool) {
    tx.send(event).is_ok()
}

/// A request for milestone `index` (zero: the latest), routed to `to` where given.
#[derive(Clone, Copy, Debug)]
pub struct MilestoneRequesterEvent {
    pub index: u32,
    pub to: Option<PeerId>,
}

/// A request for a message, with the milestone index that led to it.
#[derive(Clone, Copy, Debug)]
pub struct MessageRequesterEvent {
    pub message_id: MessageKey,
    pub index: u32,
}

/// What a request planning call did.
#[derive(Clone, Copy, Debug, PartialEq, Eq, Structural)]
pub enum RequestOutcome {
    /// The ledger holds the object already: nothing was done.
    InLedger,
    /// The message is a solid entry point, never requested: nothing was done.
    SolidEntryPoint,
    /// A request for the same key is in flight: nothing was done.
    AlreadyRequested,
    /// The key was registered and one event was emitted.
    Requested,
    /// The event could not be emitted; the key was registered and forgotten again.
    ChannelClosed,
}

/// Whether a milestone request for `index` is warranted.
pub open spec fn milestone_request_due(
    table: Map<u32, Option<PeerId>>,
    in_ledger: bool,
    index: u32,
) -> bool {
    !in_ledger && !table.contains_key(index)
}

/// The event that a milestone request emits, where one is due.
pub open spec fn milestone_request_event(
    table: Map<u32, Option<PeerId>>,
    in_ledger: bool,
    index: u32,
    to: Option<PeerId>,
) -> Option<MilestoneRequesterEvent> {
    if milestone_request_due(table, in_ledger, index) {
        Some(MilestoneRequesterEvent { index, to })
    } else {
        None
    }
}

/// The table after one decision on milestone `index`.
pub open spec fn table_after_decision(
    table: Map<u32, Option<PeerId>>,
    in_ledger: bool,
    index: u32,
    to: Option<PeerId>,
) -> Map<u32, Option<PeerId>> {
    if milestone_request_due(table, in_ledger, index) {
        table.insert(index, to)
    } else {
        table
    }
}

/// The events of successive decisions on milestone `index` while the ledger misses
/// it, the peer hint of the k-th decision being `tos[k]`.
pub open spec fn decision_events(
    table: Map<u32, Option<PeerId>>,
    index: u32,
    tos: Seq<Option<PeerId>>,
) -> Seq<Option<MilestoneRequesterEvent>>
    decreases tos.len(),
{
    if tos.len() == 0 {
        Seq::empty()
    } else {
        seq![milestone_request_event(table, false, index, tos[0])] + decision_events(
            table_after_decision(table, false, index, tos[0]),
            index,
            tos.drop_first(),
        )
    }
}

/// Whether a message request for `id` is warranted.
pub open spec fn message_request_due(
    table: Seq<MessageEntry>,
    in_ledger: bool,
    solid_entry_point: bool,
    id: Seq<u8>,
) -> bool {
    !in_ledger && !solid_entry_point && !holds_id(table, id)
}

/// The event that a message request emits, where one is due.
pub open spec fn message_request_event(
    table: Seq<MessageEntry>,
    in_ledger: bool,
    solid_entry_point: bool,
    id: MessageKey,
    index: u32,
) -> Option<MessageRequesterEvent> {
    if message_request_due(table, in_ledger, solid_entry_point, id.bytes@) {
        Some(MessageRequesterEvent { message_id: id, index })
    } else {
        None
    }
}

/// Decides whether milestone `index` is to be requested from `to` (any peer where
/// `None`): only where the ledger misses it (`!in_ledger`) and no request for it is
/// in flight. Where it is, the index is registered and the event to emit returned.
pub fn decide_milestone_request(
    table: &mut RequestedMilestones,
    in_ledger: bool,
    index: u32,
    to: Option<PeerId>,
) -> (r: Option<MilestoneRequesterEvent>)
    ensures
        r == milestone_request_event(old(table).view(), in_ledger, index, to),
        final(table).view() == table_after_decision(old(table).view(), in_ledger, index, to),
{
    if in_ledger {
        return None;
    }
    if table.try_register(index, to) {
        Some(MilestoneRequesterEvent { index, to })
    } else {
        None
    }
}

/// Ends a milestone request whose key was just registered, given whether its
/// event went out: a request that never left is forgotten so that a later call may retry.
pub fn settle_milestone_request(table: &mut RequestedMilestones, index: u32, sent: bool) -> (r:
    RequestOutcome)
    ensures
        sent ==> r == RequestOutcome::Requested && final(table).view() == old(table).view(),
        !sent ==> r == RequestOutcome::ChannelClosed && final(table).view() == old(table).view().remove(index),
{
    if sent {
        RequestOutcome::Requested
    } else {
        table.remove(index);
        RequestOutcome::ChannelClosed
    }
}

/// Requests milestone `index` from `to` (any peer where `None`) unless the ledger
/// holds it (`in_ledger`) or a request for it is in flight. The event handed to
/// `tx` is the one `decide_milestone_request` returns, and nothing is handed to it
/// where that is `None`; whether the receiver takes it decides between `Requested`
/// and `ChannelClosed`.
pub fn plan_milestone_request(
    table: &mut RequestedMilestones,
    tx: &UnboundedSender<MilestoneRequesterEvent>,
    in_ledger: bool,
    index: u32,
    to: Option<PeerId>,
) -> (r: RequestOutcome)
    ensures
        in_ledger ==> r == RequestOutcome::InLedger,
        !in_ledger && old(table).view().contains_key(index) ==> r
            == RequestOutcome::AlreadyRequested,
        !milestone_request_due(old(table).view(), in_ledger, index) ==> final(table).view() == old(table).view(),
        milestone_request_due(old(table).view(), in_ledger, index) ==> (r
            == RequestOutcome::Requested && final(table).view() == old(table).view().insert(
            index,
            to,
        )) || (r == RequestOutcome::ChannelClosed && final(table).view() == old(table).view()),
{
    if in_ledger {
        return RequestOutcome::InLedger;
    }
    match decide_milestone_request(table, in_ledger, index, to) {
        None => RequestOutcome::AlreadyRequested,
        Some(event) => {
            let sent = emit(tx, event);
            let r = settle_milestone_request(table, index, sent);
            proof {
                if !sent {
                    assert(final(table).view() =~= old(table).view());
                }
            }
            r
        },
    }
}

/// Requests the latest milestone: milestone index zero stands for it.
pub fn plan_latest_milestone_request(
    table: &mut RequestedMilestones,
    tx: &UnboundedSender<MilestoneRequesterEvent>,
    in_ledger: bool,
    to: Option<PeerId>,
) -> (r: RequestOutcome)
    ensures
        in_ledger ==> r == RequestOutcome::InLedger,
        !in_ledger && old(table).view().contains_key(0) ==> r == RequestOutcome::AlreadyRequested,
        !milestone_request_due(old(table).view(), in_ledger, 0) ==> final(table).view() == old(table).view(),
        milestone_request_due(old(table).view(), in_ledger, 0) ==> (r == RequestOutcome::Requested
            && final(table).view() == old(table).view().insert(0, to)) || (r
            == RequestOutcome::ChannelClosed && final(table).view() == old(table).view()),
{
    plan_milestone_request(table, tx, in_ledger, 0, to)
}

/// Decides whether message `id`, found through milestone `index`, is to be
/// requested: only where the ledger misses it, it is no solid entry point and no
/// request for it is in flight. Where it is, the id is registered and the event
/// to emit returned.
pub fn decide_message_request(
    table: &mut RequestedMessages,
    in_ledger: bool,
    solid_entry_point: bool,
    id: MessageKey,
    index: u32,
) -> (r: Option<MessageRequesterEvent>)
    requires
        old(table).wf(),
    ensures
        final(table).wf(),
        r == message_request_event(old(table).view(), in_ledger, solid_entry_point, id, index),
        final(table).view() == if message_request_due(
            old(table).view(),
            in_ledger,
            solid_entry_point,
            id.bytes@,
        ) {
            old(table).view().push(MessageEntry { message_id: id, index })
        } else {
            old(table).view()
        },
{
    if in_ledger || solid_entry_point {
        return None;
    }
    if table.try_register(id, index) {
        Some(MessageRequesterEvent { message_id: id, index })
    } else {
        None
    }
}

/// Ends a message request whose key was just registered, given whether its event went out.
pub fn settle_message_request(table: &mut RequestedMessages, id: &MessageKey, sent: bool) -> (r:
    RequestOutcome)
    requires
        old(table).wf(),
        holds_id(old(table).view(), id.bytes@),
    ensures
        final(table).wf(),
        sent ==> r == RequestOutcome::Requested && final(table).view() == old(table).view(),
        !sent ==> r == RequestOutcome::ChannelClosed && exists|i: int|
            0 <= i < old(table).view().len() && old(table).view()[i].message_id.bytes@ == id.bytes@
                && final(table).view() == old(table).view().remove(i),
{
    if sent {
        RequestOutcome::Requested
    } else {
        table.remove(id);
        RequestOutcome::ChannelClosed
    }
}

/// Requests message `id`, found through milestone `index`, unless the ledger holds
/// it, it is a solid entry point, or a request for it is in flight. The event
/// handed to `tx` is the one `decide_message_request` returns, and nothing is
/// handed to it where that is `None`.
pub fn plan_message_request(
    table: &mut RequestedMessages,
    tx: &UnboundedSender<MessageRequesterEvent>,
    in_ledger: bool,
    solid_entry_point: bool,
    id: MessageKey,
    index: u32,
) -> (r: RequestOutcome)
    requires
        old(table).wf(),
    ensures
        final(table).wf(),
        in_ledger ==> r == RequestOutcome::InLedger,
        !in_ledger && solid_entry_point ==> r == RequestOutcome::SolidEntryPoint,
        !in_ledger && !solid_entry_point && holds_id(old(table).view(), id.bytes@) ==> r
            == RequestOutcome::AlreadyRequested,
        !message_request_due(old(table).view(), in_ledger, solid_entry_point, id.bytes@) ==> final(table).view() == old(table).view(),
        message_request_due(old(table).view(), in_ledger, solid_entry_point, id.bytes@) ==> (r
            == RequestOutcome::Requested && final(table).view() == old(table).view().push(
            MessageEntry { message_id: id, index },
        )) || (r == RequestOutcome::ChannelClosed && final(table).view() == old(table).view()),
{
    if in_ledger {
        return RequestOutcome::InLedger;
    }
    if solid_entry_point {
        return RequestOutcome::SolidEntryPoint;
    }
    match decide_message_request(table, in_ledger, solid_entry_point, id, index) {
        None => RequestOutcome::AlreadyRequested,
        Some(event) => {
            let ghost pushed = table.view();
            assert(pushed[pushed.len() - 1].message_id.bytes@ == id.bytes@);
            let sent = emit(tx, event);
            let r = settle_message_request(table, &id, sent);
            proof {
                if !sent {
                    let s = old(table).view();
                    let i = choose|i: int|
                        0 <= i < pushed.len() && pushed[i].message_id.bytes@ == id.bytes@
                            && final(table).view() == pushed.remove(i);
                    if i != s.len() {
                        assert(pushed[s.len() as int].message_id.bytes@ == id.bytes@);
                    }
                    assert(final(table).view() =~= s);
                }
            }
            r
        },
    }
}

/// A milestone that the ledger holds is never requested, whatever is in flight.
pub proof fn lemma_no_request_when_in_ledger(
    t: Map<u32, Option<PeerId>>,
    index: u32,
    to: Option<PeerId>,
)
    ensures
        milestone_request_event(t, true, index, to) is None,
{
}

/// Once a request for milestone `index` is registered, no further event for it is
/// emitted until it is removed.
pub proof fn lemma_no_duplicate_milestone_request(
    t: Map<u32, Option<PeerId>>,
    index: u32,
    to: Option<PeerId>,
    in_ledger: bool,
    later_to: Option<PeerId>,
)
    ensures
        milestone_request_event(t.insert(index, to), in_ledger, index, later_to) is None,
{
}

/// While a request for milestone `index` is in flight, any number of further
/// decisions on it emit nothing.
pub proof fn lemma_in_flight_emits_nothing(
    t: Map<u32, Option<PeerId>>,
    index: u32,
    tos: Seq<Option<PeerId>>,
)
    requires
        t.contains_key(index),
    ensures
        decision_events(t, index, tos).len() == tos.len(),
        forall|k: int| 0 <= k < tos.len() ==> decision_events(t, index, tos)[k] is None,
    decreases tos.len(),
{
    if tos.len() > 0 {
        lemma_in_flight_emits_nothing(t, index, tos.drop_first());
        let rest = decision_events(t, index, tos.drop_first());
        let all = decision_events(t, index, tos);
        assert forall|k: int| 0 <= k < tos.len() implies all[k] is None by {
            if k > 0 {
                assert(all[k] == rest[k - 1]);
            }
        }
    }
}

/// Of any number of decisions on one milestone index that the ledger misses and
/// that is not in flight, made one after another (callers serialised on the
/// table in any order), exactly the first emits an event, for that index and its
/// own peer hint, and every later one emits nothing.
pub proof fn lemma_milestone_requests_exclusive(
    t: Map<u32, Option<PeerId>>,
    index: u32,
    tos: Seq<Option<PeerId>>,
)
    requires
        !t.contains_key(index),
        tos.len() >= 1,
    ensures
        decision_events(t, index, tos).len() == tos.len(),
        decision_events(t, index, tos)[0] == Some(MilestoneRequesterEvent { index, to: tos[0] }),
        forall|k: int| 1 <= k < tos.len() ==> decision_events(t, index, tos)[k] is None,
{
    let after = table_after_decision(t, false, index, tos[0]);
    lemma_in_flight_emits_nothing(after, index, tos.drop_first());
    let rest = decision_events(after, index, tos.drop_first());
    let all = decision_events(t, index, tos);
    assert forall|k: int| 1 <= k < tos.len() implies all[k] is None by {
        assert(all[k] == rest[k - 1]);
    }
}

/// After the request for milestone `index` is removed, a decision on it emits its
/// event again as long as the ledger still misses it.
pub proof fn lemma_request_due_after_remove(
    t: Map<u32, Option<PeerId>>,
    index: u32,
    to: Option<PeerId>,
    again_to: Option<PeerId>,
)
    ensures
        milestone_request_event(t.insert(index, to).remove(index), false, index, again_to) == Some(
            MilestoneRequesterEvent { index, to: again_to },
        ),
{
}

/// A message that the ledger holds, or that is a solid entry point, is never requested.
pub proof fn lemma_no_message_request_when_known(
    t: Seq<MessageEntry>,
    in_ledger: bool,
    solid_entry_point: bool,
    id: MessageKey,
    index: u32,
)
    requires
        in_ledger || solid_entry_point,
    ensures
        message_request_event(t, in_ledger, solid_entry_point, id, index) is None,
{
}

/// Once a request for a message is registered, no further event for it is
/// emitted until it is removed.
pub proof fn lemma_no_duplicate_message_request(
    t: Seq<MessageEntry>,
    e: MessageEntry,
    in_ledger: bool,
    solid_entry_point: bool,
    later_index: u32,
)
    ensures
        message_request_event(t.push(e), in_ledger, solid_entry_point, e.message_id, later_index) is None,
{
    assert(t.push(e)[t.len() as int] == e);
}

} // verus!

use vstd::prelude::*;
use std::collections::HashMap;
use crate::peer::{PeerId, same_bytes};

verus! {

broadcast use vstd::std_specs::hash::group_hash_axioms;

/// A content-derived identifier of a ledger message.
#[derive(Clone, Copy, Debug)]
pub struct MessageKey {
    pub bytes: [u8; 32],
}

/// Whether two message ids hold the same bytes.
pub fn same_message_id(a: &MessageKey, b: &MessageKey) -> (r: bool)
    ensures
        r == (a.bytes@ == b.bytes@),
{
    same_bytes(&a.bytes, &b.bytes)
}

/// The milestone requests in flight: each index with the peer it was meant for, if any.
pub struct RequestedMilestones {
    entries: HashMap<u32, Option<PeerId>>,
}

impl RequestedMilestones {
    pub closed spec fn view(&self) -> Map<u32, Option<PeerId>> {
        self.entries@
    }

    pub fn new() -> (r: RequestedMilestones)
        ensures
            r.view() == Map::<u32, Option<PeerId>>::empty(),
    {
        RequestedMilestones { entries: HashMap::new() }
    }

    pub fn contains(&self, index: u32) -> (r: bool)
        ensures
            r == self.view().contains_key(index),
    {
        self.entries.contains_key(&index)
    }

    pub fn len(&self) -> (r: usize)
        ensures
            r == self.view().len(),
    {
        self.entries.len()
    }

    /// Registers `index` unless it is in flight already; true where this call registered it.
    pub fn try_register(&mut self, index: u32, to: Option<PeerId>) -> (r: bool)
        ensures
            r == !old(self).view().contains_key(index),
            r ==> final(self).view() == old(self).view().insert(index, to),
            !r ==> final(self).view() == old(self).view(),
    {
        if self.entries.contains_key(&index) {
            false
        } else {
            self.entries.insert(index, to);
            true
        }
    }

    /// Forgets `index`; nothing happens where it was not in flight.
    pub fn remove(&mut self, index: u32)
        ensures
            final(self).view() == old(self).view().remove(index),
    {
        self.entries.remove(&index);
    }
}

/// One message request in flight, with the milestone index that led to it.
#[derive(Clone, Copy, Debug)]
pub struct MessageEntry {
    pub message_id: MessageKey,
    pub index: u32,
}

/// The message requests in flight, each message id at most once.
pub struct RequestedMessages {
    entries: Vec<MessageEntry>,
}

/// Whether `id` is among the entries.
pub open spec fn holds_id(s: Seq<MessageEntry>, id: Seq<u8>) -> bool {
    exists|i: int| 0 <= i < s.len() && s[i].message_id.bytes@ == id
}

/// No message id appears twice.
pub open spec fn ids_unique(s: Seq<MessageEntry>) -> bool {
    forall|i: int, j: int|
        0 <= i < s.len() && 0 <= j < s.len() && i != j ==> s[i].message_id.bytes@
            != s[j].message_id.bytes@
}

impl RequestedMessages {
    pub closed spec fn view(&self) -> Seq<MessageEntry> {
        self.entries@
    }

    pub open spec fn wf(&self) -> bool {
        ids_unique(self.view())
    }

    pub fn new() -> (r: RequestedMessages)
        ensures
            r.wf(),
            r.view() == Seq::<MessageEntry>::empty(),
    {
        RequestedMessages { entries: Vec::new() }
    }

    /// The position of `id` among the entries, if it is there.
    fn find(&self, id: &MessageKey) -> (r: Option<usize>)
        requires
            self.wf(),
        ensures
            r is None <==> !holds_id(self.view(), id.bytes@),
            r matches Some(i) ==> i < self.view().len() && self.view()[i as int].message_id.bytes@
                == id.bytes@,
    {
        let mut i: usize = 0;
        while i < self.entries.len()
            invariant
                0 <= i <= self.entries@.len(),
                forall|j: int| 0 <= j < i ==> self.entries@[j].message_id.bytes@ != id.bytes@,
            decreases self.entries@.len() - i,
        {
            if same_message_id(&self.entries[i].message_id, id) {
                return Some(i);
            }
            i += 1;
        }
        None
    }

    pub fn contains(&self, id: &MessageKey) -> (r: bool)
        requires
            self.wf(),
        ensures
            r == holds_id(self.view(), id.bytes@),
    {
        self.find(id).is_some()
    }

    pub fn len(&self) -> (r: usize)
        ensures
            r == self.view().len(),
    {
        self.entries.len()
    }

    /// The entry at position `i`, in order of registration.
    pub fn entry_at(&self, i: usize) -> (r: MessageEntry)
        requires
            i < self.view().len(),
        ensures
            r == self.view()[i as int],
    {
        self.entries[i]
    }

    /// Registers `id` unless it is in flight already; true where this call registered it.
    pub fn try_register(&mut self, id: MessageKey, index: u32) -> (r: bool)
        requires
            old(self).wf(),
        ensures
            final(self).wf(),
            r == !holds_id(old(self).view(), id.bytes@),
            r ==> final(self).view() == old(self).view().push(
                MessageEntry { message_id: id, index },
            ),
            !r ==> final(self).view() == old(self).view(),
    {
        if self.contains(&id) {
            false
        } else {
            self.entries.push(MessageEntry { message_id: id, index });
            proof {
                let s = self.view();
                assert forall|i: int, j: int|
                    0 <= i < s.len() && 0 <= j < s.len() && i != j implies s[i].message_id.bytes@
                    != s[j].message_id.bytes@ by {
                    if i == s.len() - 1 {
                        assert(s[j] == old(self).view()[j]);
                    } else if j == s.len() - 1 {
                        assert(s[i] == old(self).view()[i]);
                    }
                }
            }
            true
        }
    }

    /// Forgets `id`; nothing happens where it was not in flight.
    pub fn remove(&mut self, id: &MessageKey)
        requires
            old(self).wf(),
        ensures
            final(self).wf(),
            !holds_id(final(self).view(), id.bytes@),
            forall|m: Seq<u8>| m != id.bytes@ ==> (holds_id(final(self).view(), m) <==> holds_id(old(self).view(), m)),
            !holds_id(old(self).view(), id.bytes@) ==> final(self).view() == old(self).view(),
            holds_id(old(self).view(), id.bytes@) ==> exists|i: int|
                0 <= i < old(self).view().len() && old(self).view()[i].message_id.bytes@ == id.bytes@
                    && final(self).view() == old(self).view().remove(i),
    {
        match self.find(id) {
            None => {},
            Some(i) => {
                let ghost s = self.view();
                self.entries.remove(i);
                proof {
                    let t = self.view();
                    assert(t =~= s.remove(i as int));
                    assert(s[i as int].message_id.bytes@ == id.bytes@);
                    assert forall|m: Seq<u8>| m != id.bytes@ implies (holds_id(t, m) <==> holds_id(s, m)) by {
                        if holds_id(s, m) {
                            let k = choose|k: int| 0 <= k < s.len() && s[k].message_id.bytes@ == m;
                            if k < i { assert(t[k] == s[k]); } else { assert(k != i); assert(t[k - 1] == s[k]); }
                        }
                        if holds_id(t, m) {
                            let k = choose|k: int| 0 <= k < t.len() && t[k].message_id.bytes@ == m;
                            if k < i { assert(t[k] == s[k]); } else { assert(t[k] == s[k + 1]); }
                        }
                    }
                    if holds_id(t, id.bytes@) {
                        let k = choose|k: int| 0 <= k < t.len() && t[k].message_id.bytes@ == id.bytes@;
                        if k < i { assert(t[k] == s[k]); } else { assert(t[k] == s[k + 1]); }
                    }
                }
            },
        }
    }
}

/// Of two registrations of one message id that is not in flight, made one after
/// the other, the first succeeds (the table stays free of repeats) and the second
/// finds the id in flight.
pub proof fn lemma_register_message_exclusive(t: Seq<MessageEntry>, e1: MessageEntry, e2: MessageEntry)
    requires
        ids_unique(t),
        !holds_id(t, e1.message_id.bytes@),
        e2.message_id.bytes@ == e1.message_id.bytes@,
    ensures
        ({
            let after = t.push(e1);
            ids_unique(after) && holds_id(after, e2.message_id.bytes@)
        }),
{
    let after = t.push(e1);
    assert(after[t.len() as int] == e1);
    assert forall|i: int, j: int|
        0 <= i < after.len() && 0 <= j < after.len() && i != j implies after[i].message_id.bytes@
        != after[j].message_id.bytes@ by {
        if i == t.len() {
            assert(after[j] == t[j]);
        } else if j == t.len() {
            assert(after[i] == t[i]);
        } else {
            assert(after[i] == t[i] && after[j] == t[j]);
        }
    }
}

/// Removing a milestone index that is not in flight changes neither the table nor its size.
pub proof fn lemma_remove_absent_milestone(t: Map<u32, Option<PeerId>>, index: u32)
    requires
        t.dom().finite(),
        !t.contains_key(index),
    ensures
        t.remove(index) == t,
        t.remove(index).len() == t.len(),
{
    assert(t.remove(index) =~= t);
}

} // verus!

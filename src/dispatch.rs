use vstd::prelude::*;

verus! {

/// The kinds of packet that are sent and counted.
#[derive(Clone, Copy, Debug, PartialEq, Eq, Structural)]
pub enum PacketKind {
    MilestoneRequest,
    Message,
    MessageRequest,
    Heartbeat,
}

/// One step up an increment-only counter that stops at its largest value.
pub open spec fn bumped(n: u64) -> u64 {
    if n < u64::MAX {
        (n + 1) as u64
    } else {
        n
    }
}

/// How many packets of each kind went out.
#[derive(Clone, Copy, Debug)]
pub struct ProtocolMetrics {
    pub milestone_requests_sent: u64,
    pub messages_sent: u64,
    pub message_requests_sent: u64,
    pub heartbeats_sent: u64,
}

impl ProtocolMetrics {
    pub open spec fn counter(&self, kind: PacketKind) -> u64 {
        match kind {
            PacketKind::MilestoneRequest => self.milestone_requests_sent,
            PacketKind::Message => self.messages_sent,
            PacketKind::MessageRequest => self.message_requests_sent,
            PacketKind::Heartbeat => self.heartbeats_sent,
        }
    }

    /// These counters with the one of `kind` one step up.
    pub open spec fn bump(&self, kind: PacketKind) -> ProtocolMetrics {
        match kind {
            PacketKind::MilestoneRequest => ProtocolMetrics {
                milestone_requests_sent: bumped(self.milestone_requests_sent),
                ..*self
            },
            PacketKind::Message => ProtocolMetrics { messages_sent: bumped(self.messages_sent), ..*self },
            PacketKind::MessageRequest => ProtocolMetrics {
                message_requests_sent: bumped(self.message_requests_sent),
                ..*self
            },
            PacketKind::Heartbeat => ProtocolMetrics {
                heartbeats_sent: bumped(self.heartbeats_sent),
                ..*self
            },
        }
    }

    pub fn new() -> (r: ProtocolMetrics)
        ensures
            r.milestone_requests_sent == 0,
            r.messages_sent == 0,
            r.message_requests_sent == 0,
            r.heartbeats_sent == 0,
    {
        ProtocolMetrics {
            milestone_requests_sent: 0,
            messages_sent: 0,
            message_requests_sent: 0,
            heartbeats_sent: 0,
        }
    }

    pub fn count(&self, kind: PacketKind) -> (r: u64)
        ensures
            r == self.counter(kind),
    {
        match kind {
            PacketKind::MilestoneRequest => self.milestone_requests_sent,
            PacketKind::Message => self.messages_sent,
            PacketKind::MessageRequest => self.message_requests_sent,
            PacketKind::Heartbeat => self.heartbeats_sent,
        }
    }

    /// Accounts for one packet of `kind` handed to the transport: counted where
    /// the transport took it (`sent`), not counted where it failed.
    pub fn record_dispatch(&mut self, kind: PacketKind, sent: bool)
        ensures
            sent ==> *final(self) == old(self).bump(kind),
            !sent ==> *final(self) == *old(self),
    {
        if sent {
            match kind {
                PacketKind::MilestoneRequest => {
                    self.milestone_requests_sent = step(self.milestone_requests_sent);
                },
                PacketKind::Message => {
                    self.messages_sent = step(self.messages_sent);
                },
                PacketKind::MessageRequest => {
                    self.message_requests_sent = step(self.message_requests_sent);
                },
                PacketKind::Heartbeat => {
                    self.heartbeats_sent = step(self.heartbeats_sent);
                },
            }
        }
    }
}

fn step(n: u64) -> (r: u64)
    ensures
        r == bumped(n),
{
    if n < u64::MAX {
        n + 1
    } else {
        n
    }
}

} // verus!

//! The per-connection worker's protocol decisions. The worker's loop itself
//! performs stream I/O through the packet codec, an outside collaborator;
//! every decision it takes — how to relabel the handshake snapshot, what one
//! decode outcome means, when to report a disconnection and when to exit —
//! is a function here, from state and event to new state and action.
use vstd::prelude::*;
use crate::busio::{reader_await, reader_log};
use crate::payload::{Payload, PayloadView};

verus! {

/// The outcome of one decode attempt on the peer's stream, as the codec
/// classifies it: a payload, an unusable connection, or no data right now.
pub enum InboundEvent {
    Packet(Payload),
    Fatal,
    Idle,
}

/// What the worker's loop must do with one inbound outcome: submit the
/// payload to the aggregation channel, report this peer gone (decrement the
/// liveness tally, exactly once), or end the receive phase.
pub enum InboundAction {
    Forward(Payload),
    Halt,
    Wait,
}

/// One connection worker's state: the peer's assigned index, and whether a
/// fatal condition has marked this worker for termination.
#[derive(Clone, Copy, PartialEq, Eq, Structural, Debug)]
pub struct Worker {
    pub index: usize,
    pub terminating: bool,
}

impl Worker {
    pub fn new(index: usize) -> (w: Worker)
        ensures
            w == (Worker { index, terminating: false }),
    {
        Worker { index, terminating: false }
    }

    /// The handshake: the first broadcast message must be the session
    /// snapshot, and this worker relabels it with its own peer's index
    /// before transmitting it. Anything else is an unrecoverable protocol
    /// fault, reported as `None`.
    pub fn stamp_snapshot(&self, first: Payload) -> (r: Option<Payload>)
        ensures
            match first@ {
                PayloadView::Snapshot { roster, seed, pid } => r matches Some(q) && q@
                    == (PayloadView::Snapshot { roster, seed, pid: Some(self.index) }),
                PayloadView::Delta { .. } => r is None,
            },
    {
        match first {
            Payload::Snapshot { roster, seed, pid: _ } => Some(
                Payload::Snapshot { roster, seed, pid: Some(self.index) },
            ),
            Payload::Delta { .. } => None,
        }
    }

    /// The whole handshake: block on this worker's bus reader for the first
    /// message after subscription, which must be the session snapshot, and
    /// relabel it with this peer's index, ready to transmit. `None` means
    /// the unrecoverable protocol fault — the first message was no snapshot
    /// — or a bus that is already gone; nothing was received in the latter
    /// case.
    pub fn handshake(&self, r: &mut bus::BusReader<Payload>) -> (res: Option<Payload>)
        ensures
            match res {
                Some(q) => ({
                    let got = reader_log(*final(r)).last();
                    &&& reader_log(*final(r)) == reader_log(*old(r)).push(got)
                    &&& match got {
                        PayloadView::Snapshot { roster, seed, pid } => q@
                            == (PayloadView::Snapshot { roster, seed, pid: Some(self.index) }),
                        PayloadView::Delta { .. } => false,
                    }
                }),
                None => reader_log(*final(r)) == reader_log(*old(r)) || (reader_log(
                    *final(r),
                ) == reader_log(*old(r)).push(reader_log(*final(r)).last()) && reader_log(
                    *final(r),
                ).last() matches PayloadView::Delta { .. }),
            },
    {
        match reader_await(r) {
            Some(first) => self.stamp_snapshot(first),
            None => None,
        }
    }

    /// One receive-phase step. A decoded payload is forwarded unmodified; a
    /// fatal decode marks termination and asks for the one liveness
    /// decrement this worker will ever make; no data ends the phase.
    pub fn on_inbound(&mut self, ev: InboundEvent) -> (a: InboundAction)
        ensures
            final(self).index == old(self).index,
            match ev {
                InboundEvent::Packet(p) => a == InboundAction::Forward(p) && *final(self)
                    == *old(self),
                InboundEvent::Fatal => final(self).terminating && (a == InboundAction::Halt
                    <==> !old(self).terminating) && (old(self).terminating ==> a
                    == InboundAction::Wait),
                InboundEvent::Idle => a == InboundAction::Wait && *final(self) == *old(self),
            },
    {
        match ev {
            InboundEvent::Packet(p) => InboundAction::Forward(p),
            InboundEvent::Fatal => {
                if self.terminating {
                    InboundAction::Wait
                } else {
                    self.terminating = true;
                    InboundAction::Halt
                }
            },
            InboundEvent::Idle => InboundAction::Wait,
        }
    }

    /// A fatal transmit error in the send phase: marks termination, and
    /// reports whether the liveness tally must be decremented (only the
    /// first fatal condition of this worker counts).
    pub fn on_send_fatal(&mut self) -> (halt: bool)
        ensures
            final(self).index == old(self).index,
            final(self).terminating,
            halt == !old(self).terminating,
    {
        let halt = !self.terminating;
        self.terminating = true;
        halt
    }

    /// The per-tick termination check: exit when this worker is marked
    /// terminating, or as soon as the polled liveness tally reads zero —
    /// global shutdown, independent of this connection's own health.
    pub fn should_exit(&self, live_now: usize) -> (r: bool)
        ensures
            r <==> (self.terminating || live_now == 0),
    {
        self.terminating || live_now == 0
    }
}

} // verus!

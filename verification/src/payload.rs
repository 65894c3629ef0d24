//! The payloads exchanged between the authority and the workers: the one-time
//! session snapshot and the position deltas.
use vstd::prelude::*;
use crate::player::{DeltaEntry, Player};

verus! {

/// A message carried by the aggregation channel and the broadcast bus.
#[derive(Clone, PartialEq, Debug)]
pub enum Payload {
    /// The full initial roster plus the 32-byte map seed, published exactly
    /// once at session start. `pid` is `None` as published by the authority;
    /// each worker stamps its own peer's index into it before forwarding.
    Snapshot { roster: Vec<Player>, seed: Vec<u8>, pid: Option<usize> },
    /// A batch of position changes, applied in list order.
    Delta { entries: Vec<DeltaEntry> },
}

/// The mathematical value of a `Payload`.
pub enum PayloadView {
    Snapshot { roster: Seq<Player>, seed: Seq<u8>, pid: Option<usize> },
    Delta { entries: Seq<DeltaEntry> },
}

impl View for Payload {
    type V = PayloadView;

    open spec fn view(&self) -> PayloadView {
        match self {
            Payload::Snapshot { roster, seed, pid } => PayloadView::Snapshot {
                roster: roster@,
                seed: seed@,
                pid: *pid,
            },
            Payload::Delta { entries } => PayloadView::Delta { entries: entries@ },
        }
    }
}

/// The values of a sequence of payloads.
pub open spec fn views_of(s: Seq<Payload>) -> Seq<PayloadView> {
    s.map_values(|p: Payload| p@)
}

/// Whether every entry of the sequence addresses a player of an `n`-player
/// roster.
pub open spec fn entries_in_range(es: Seq<DeltaEntry>, n: nat) -> bool {
    forall|i: int| 0 <= i < es.len() ==> (#[trigger] es[i]).pid < n
}

/// Whether every entry of the payload addresses a player of an `n`-player
/// roster. Snapshots address nobody and are always fine.
pub open spec fn addresses_roster(pv: PayloadView, n: nat) -> bool {
    match pv {
        PayloadView::Delta { entries } => entries_in_range(entries, n),
        PayloadView::Snapshot { .. } => true,
    }
}

} // verus!

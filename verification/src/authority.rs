//! The authority: the single owner of the canonical state. It bootstraps
//! the session, consumes every payload the workers aggregated, mutates the
//! state, and republishes every consumed payload on the broadcast bus in
//! consumption order — delaying, never dropping, under backpressure.
use vstd::prelude::*;
use std::collections::VecDeque;
use crate::busio::{bus_log, bus_try_publish};
use crate::payload::{addresses_roster, entries_in_range, views_of, Payload, PayloadView};
use crate::player::Player;
use crate::state::{apply_entries, lemma_apply_entries_wf, GameState};

verus! {

/// Relies on `rand::random`: draws one value of the standard distribution
/// from the thread-local generator. Nothing can be promised of the value.
pub assume_specification<T>[ rand::random::<T> ]() -> (r: T)
    where
        rand::distributions::Standard: rand::distributions::Distribution<T>,
;

/// Draws the random 32-byte seed the session's terrain is generated from.
pub fn draw_seed() -> (s: Vec<u8>)
    ensures
        s@.len() == 32,
{
    let mut s: Vec<u8> = Vec::new();
    let mut i: usize = 0;
    while i < 32
        invariant
            i <= 32,
            s@.len() == i,
        decreases 32 - i,
    {
        s.push(rand::random::<u8>());
        i += 1;
    }
    s
}

/// The roster after one consumed payload: a delta moves its addressed
/// players; a snapshot (or anything else echoed) changes nothing.
pub open spec fn apply_payload(ps: Seq<Player>, pv: PayloadView) -> Seq<Player> {
    match pv {
        PayloadView::Delta { entries } => apply_entries(ps, entries),
        PayloadView::Snapshot { .. } => ps,
    }
}

/// The roster after a whole sequence of consumed payloads, in consumption
/// order.
pub open spec fn apply_payloads(ps: Seq<Player>, pvs: Seq<PayloadView>) -> Seq<Player>
    decreases pvs.len(),
{
    if pvs.len() == 0 {
        ps
    } else {
        apply_payloads(apply_payload(ps, pvs[0]), pvs.skip(1))
    }
}

pub proof fn lemma_apply_payloads_snoc(ps: Seq<Player>, pvs: Seq<PayloadView>, pv: PayloadView)
    ensures
        apply_payloads(ps, pvs.push(pv)) == apply_payload(apply_payloads(ps, pvs), pv),
    decreases pvs.len(),
{
    reveal_with_fuel(apply_payloads, 3);
    if pvs.len() == 0 {
        assert(pvs.push(pv)[0] == pv);
        assert(pvs.push(pv).skip(1) =~= Seq::<PayloadView>::empty());
    } else {
        assert(pvs.push(pv)[0] == pvs[0]);
        assert(pvs.push(pv).skip(1) =~= pvs.skip(1).push(pv));
        lemma_apply_payloads_snoc(apply_payload(ps, pvs[0]), pvs.skip(1), pv);
    }
}

/// The authority's whole working state: the canonical game state and the
/// queue of consumed payloads not yet republished on the bus.
pub struct Authority {
    pub state: GameState,
    pub pending: VecDeque<Payload>,
}

impl Authority {
    pub open spec fn wf(&self) -> bool {
        self.state.wf()
    }

    /// The values of the pending-broadcast queue, front first.
    pub open spec fn pending_views(&self) -> Seq<PayloadView> {
        views_of(self.pending@)
    }

    pub open spec fn n_players(&self) -> nat {
        self.state.players@.len()
    }

    /// Session bootstrap: one default player per accepted connection (the
    /// index is the id for the whole session), the map seed kept, and the
    /// one-time snapshot — full roster, seed, no assigned id — queued as
    /// the first broadcast of the session.
    pub fn bootstrap(n_peers: usize, seed: Vec<u8>) -> (a: Authority)
        requires
            seed@.len() == 32,
        ensures
            a.wf(),
            a.state.players@.len() == n_peers,
            forall|i: int|
                0 <= i < n_peers ==> (#[trigger] a.state.players@[i]) == (Player {
                    id: i as usize,
                    x: 0i64,
                    y: 0i64,
                }),
            a.state.seed@ == seed@,
            a.pending_views() == seq![
                PayloadView::Snapshot { roster: a.state.players@, seed: seed@, pid: None },
            ],
    {
        let gs = GameState::bootstrap(n_peers, seed);
        let roster = gs.players.clone();
        let seed_copy = gs.seed.clone();
        let snap = Payload::Snapshot { roster, seed: seed_copy, pid: None };
        let mut pending: VecDeque<Payload> = VecDeque::new();
        pending.push_back(snap);
        let a = Authority { state: gs, pending };
        proof {
            assert(a.pending_views() =~= seq![
                PayloadView::Snapshot { roster: a.state.players@, seed: a.state.seed@, pid: None },
            ]);
        }
        a
    }

    /// Bootstrap with a freshly drawn random seed.
    pub fn bootstrap_random(n_peers: usize) -> (a: Authority)
        ensures
            a.wf(),
            a.state.players@.len() == n_peers,
            forall|i: int|
                0 <= i < n_peers ==> (#[trigger] a.state.players@[i]) == (Player {
                    id: i as usize,
                    x: 0i64,
                    y: 0i64,
                }),
            a.pending_views() == seq![
                PayloadView::Snapshot {
                    roster: a.state.players@,
                    seed: a.state.seed@,
                    pid: None,
                },
            ],
    {
        let seed = draw_seed();
        Authority::bootstrap(n_peers, seed)
    }

    /// Consumes one payload from the aggregation channel: a delta is applied
    /// to the canonical state entry by entry, in list order; the payload,
    /// whatever its variant, is then appended unchanged to the pending
    /// queue — every consumed event is echoed to every peer, its sender
    /// included.
    pub fn ingest(&mut self, p: Payload)
        requires
            old(self).wf(),
            addresses_roster(p@, old(self).n_players()),
        ensures
            final(self).wf(),
            final(self).n_players() == old(self).n_players(),
            final(self).state.players@ == apply_payload(old(self).state.players@, p@),
            final(self).state.seed@ == old(self).state.seed@,
            final(self).pending_views() == old(self).pending_views().push(p@),
    {
        let ghost ps0 = self.state.players@;
        let ghost pending0 = self.pending@;
        match &p {
            Payload::Delta { entries } => {
                proof {
                    assert(p@ == (PayloadView::Delta { entries: entries@ }));
                    assert(entries_in_range(entries@, old(self).n_players()));
                }
                self.state.apply_delta(entries);
                proof {
                    lemma_apply_entries_wf(ps0, entries@);
                }
            },
            Payload::Snapshot { .. } => {},
        }
        self.pending.push_back(p);
        proof {
            assert(views_of(pending0.push(p)) =~= views_of(pending0).push(p@));
        }
    }

    /// Consumes a whole drained batch, in consumption order.
    pub fn ingest_batch(&mut self, mut batch: Vec<Payload>)
        requires
            old(self).wf(),
            forall|k: int|
                0 <= k < batch@.len() ==> addresses_roster(
                    (#[trigger] batch@[k])@,
                    old(self).n_players(),
                ),
        ensures
            final(self).wf(),
            final(self).n_players() == old(self).n_players(),
            final(self).state.players@ == apply_payloads(
                old(self).state.players@,
                views_of(batch@),
            ),
            final(self).state.seed@ == old(self).state.seed@,
            final(self).pending_views() == old(self).pending_views() + views_of(batch@),
    {
        let ghost all = batch@;
        let ghost ps0 = self.state.players@;
        let ghost pv0 = self.pending_views();
        let ghost seed0 = self.state.seed@;
        proof {
            assert(all.take(0) =~= Seq::<Payload>::empty());
            assert(views_of(all.take(0)) =~= Seq::<PayloadView>::empty());
            assert(pv0 + views_of(all.take(0)) =~= pv0);
        }
        while batch.len() > 0
            invariant
                self.wf(),
                batch@.len() <= all.len(),
                batch@ == all.skip(all.len() - batch@.len()),
                self.n_players() == ps0.len(),
                self.state.players@ == apply_payloads(
                    ps0,
                    views_of(all.take(all.len() - batch@.len())),
                ),
                self.state.seed@ == seed0,
                self.pending_views() == pv0 + views_of(all.take(all.len() - batch@.len())),
                forall|k: int|
                    0 <= k < all.len() ==> addresses_roster((#[trigger] all[k])@, ps0.len()),
            decreases batch@.len(),
        {
            let ghost done = all.len() - batch@.len();
            let p = batch.remove(0);
            proof {
                assert(p == all[done]);
                assert(batch@ =~= all.skip(done + 1));
                assert(views_of(all.take(done + 1)) =~= views_of(all.take(done)).push(
                    all[done]@,
                ));
                lemma_apply_payloads_snoc(ps0, views_of(all.take(done)), all[done]@);
                assert(pv0 + views_of(all.take(done + 1)) =~= (pv0 + views_of(
                    all.take(done),
                )).push(all[done]@));
            }
            self.ingest(p);
        }
        proof {
            assert(all.take(all.len() as int) =~= all);
        }
    }

    /// Drains the pending queue into the broadcast bus, front first. On a
    /// publish failure — the bus momentarily full — the message goes back
    /// to the front of the queue and draining stops for this tick: order is
    /// preserved and nothing is ever dropped, at the price of delay. The
    /// bus log followed by what is still pending is the same sequence
    /// before and after, and what was published is exactly a front prefix
    /// of what was pending.
    pub fn flush(&mut self, b: &mut bus::Bus<Payload>)
        ensures
            final(self).state == old(self).state,
            bus_log(*final(b)) + final(self).pending_views() == bus_log(*old(b)) + old(
                self,
            ).pending_views(),
            exists|k: int|
                0 <= k <= old(self).pending_views().len() && bus_log(*final(b)) == bus_log(
                    *old(b),
                ) + old(self).pending_views().take(k) && final(self).pending_views() == old(
                    self,
                ).pending_views().skip(k),
    {
        let ghost log0 = bus_log(*b);
        let ghost pv0 = self.pending_views();
        let ghost gs0 = self.state;
        proof {
            assert(pv0.take(0) =~= Seq::<PayloadView>::empty());
            assert(log0 + pv0.take(0) =~= log0);
            assert(pv0.skip(0) =~= pv0);
        }
        while self.pending.len() > 0
            invariant
                self.state == gs0,
                self.pending_views().len() <= pv0.len(),
                bus_log(*b) == log0 + pv0.take(pv0.len() - self.pending_views().len()),
                self.pending_views() == pv0.skip(pv0.len() - self.pending_views().len()),
            decreases self.pending@.len(),
        {
            let ghost k = pv0.len() - self.pending_views().len();
            let ghost rest0 = self.pending@;
            let p_opt = self.pending.pop_front();
            let p = match p_opt {
                Some(p) => p,
                None => {
                    proof {
                        assert(false);
                    }
                    break ;
                },
            };
            proof {
                assert(p@ == views_of(rest0)[0]);
                assert(p@ == pv0[k]);
                assert(views_of(rest0.subrange(1, rest0.len() as int)) =~= views_of(
                    rest0,
                ).skip(1));
                assert(views_of(rest0).skip(1) =~= pv0.skip(k + 1));
            }
            match bus_try_publish(b, p) {
                None => {
                    proof {
                        assert(pv0.take(k + 1) =~= pv0.take(k).push(pv0[k]));
                        assert(log0 + pv0.take(k + 1) =~= (log0 + pv0.take(k)).push(pv0[k]));
                    }
                },
                Some(q) => {
                    self.pending.push_front(q);
                    proof {
                        assert(views_of(seq![q] + rest0.subrange(1, rest0.len() as int))
                            =~= seq![q@] + views_of(rest0.subrange(1, rest0.len() as int)));
                        assert(seq![q@] + pv0.skip(k + 1) =~= pv0.skip(k));
                    }
                    break ;
                },
            }
        }
        proof {
            let ghost k = pv0.len() - self.pending_views().len();
            assert(pv0.take(k) + pv0.skip(k) =~= pv0);
            assert((log0 + pv0.take(k)) + pv0.skip(k) =~= log0 + pv0);
        }
    }

    /// Law: no message put under backpressure is ever lost or reordered.
    /// One drain publishes a front prefix of the pending queue and keeps
    /// the rest (as `flush` ensures); this law states that any later drain
    /// of the kept suffix continues the very same sequence — after both,
    /// the bus log is one longer prefix of the original queue, and what is
    /// still pending is its remainder, in original order.
    pub proof fn law_backpressure_keeps_order(
        log0: Seq<PayloadView>,
        pv: Seq<PayloadView>,
        k1: int,
        k2: int,
    )
        requires
            0 <= k1 <= k2 <= pv.len(),
        ensures
            (log0 + pv.take(k1)) + pv.skip(k1).take(k2 - k1) == log0 + pv.take(k2),
            pv.skip(k1).skip(k2 - k1) == pv.skip(k2),
    {
        assert((log0 + pv.take(k1)) + pv.skip(k1).take(k2 - k1) =~= log0 + pv.take(k2));
        assert(pv.skip(k1).skip(k2 - k1) =~= pv.skip(k2));
    }

    /// One authority tick: consume the batch drained from the aggregation
    /// channel (in consumption order), republish as far as the bus allows,
    /// and decide termination from the polled liveness tally. Exit is
    /// decided by that tally alone — a zero read ends the session within
    /// this very tick.
    pub fn tick(
        &mut self,
        batch: Vec<Payload>,
        b: &mut bus::Bus<Payload>,
        live_now: usize,
    ) -> (exit: bool)
        requires
            old(self).wf(),
            forall|k: int|
                0 <= k < batch@.len() ==> addresses_roster(
                    (#[trigger] batch@[k])@,
                    old(self).n_players(),
                ),
        ensures
            final(self).wf(),
            final(self).n_players() == old(self).n_players(),
            final(self).state.players@ == apply_payloads(
                old(self).state.players@,
                views_of(batch@),
            ),
            final(self).state.seed@ == old(self).state.seed@,
            bus_log(*final(b)) + final(self).pending_views() == bus_log(*old(b)) + old(
                self,
            ).pending_views() + views_of(batch@),
            exit <==> live_now == 0,
    {
        let ghost inb = views_of(batch@);
        let ghost pv_before = self.pending_views();
        self.ingest_batch(batch);
        let ghost log_before = bus_log(*b);
        self.flush(b);
        proof {
            assert((log_before + (pv_before + inb)) =~= (log_before + pv_before) + inb);
        }
        live_now == 0
    }
}

} // verus!

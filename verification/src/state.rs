//! The canonical game state owned by the authority, and the proof that
//! applying delta entries in consumption order sums the changes per player.
use vstd::prelude::*;
use vstd::arithmetic::div_mod::{
    lemma_add_mod_noop, lemma_mod_sub_multiples_vanish, lemma_mod_add_multiples_vanish,
    lemma_mod_twice, lemma_small_mod,
};
use vstd::wrapping::i64_specs;
use crate::player::{DeltaEntry, Player};

verus! {

/// The number of distinct `i64` values, the modulus of wrapping arithmetic.
pub open spec fn i64_span() -> int {
    0x1_0000_0000_0000_0000
}

/// The unique value congruent to `n` modulo `i64_span()` that lies in the
/// `i64` range: what a chain of wrapping additions reaching `n` produces.
pub open spec fn wrap64(n: int) -> int {
    ((n - i64::MIN) % i64_span()) + i64::MIN
}

pub proof fn lemma_wrap64_identity(n: int)
    requires
        i64::MIN <= n <= i64::MAX,
    ensures
        wrap64(n) == n,
{
    lemma_small_mod((n - i64::MIN) as nat, i64_span() as nat);
}

/// One exec wrapping addition computes `wrap64` of the exact sum.
pub proof fn lemma_wrapping_add_is_wrap64(a: i64, b: i64)
    ensures
        i64_specs::wrapping_add(a, b) == wrap64(a + b),
{
    let s = a + b;
    if s > i64::MAX {
        lemma_mod_sub_multiples_vanish(s - i64::MIN, i64_span());
        lemma_small_mod((s - i64::MIN - i64_span()) as nat, i64_span() as nat);
    } else if s < i64::MIN {
        lemma_mod_add_multiples_vanish(s - i64::MIN, i64_span());
        lemma_small_mod((s - i64::MIN + i64_span()) as nat, i64_span() as nat);
    } else {
        lemma_wrap64_identity(s);
    }
}

/// Wrapping an already-wrapped partial sum loses nothing: the correction can
/// be deferred to the end of the whole sum.
pub proof fn lemma_wrap64_shift(n: int, d: int)
    ensures
        wrap64(wrap64(n) + d) == wrap64(n + d),
{
    let m = i64_span();
    let x = n - i64::MIN;
    lemma_mod_twice(x, m);
    lemma_add_mod_noop(x % m, d, m);
    lemma_add_mod_noop(x, d, m);
    assert((x % m + d) % m == (x + d) % m);
    assert(wrap64(n) + d - i64::MIN == x % m + d);
}

/// The roster after one delta entry: the addressed player moved by the
/// change vector (wrapping), everyone else untouched. An entry addressing
/// nobody leaves the roster as it is.
pub open spec fn step_entry(ps: Seq<Player>, e: DeltaEntry) -> Seq<Player> {
    if e.pid < ps.len() {
        let p = ps[e.pid as int];
        ps.update(
            e.pid as int,
            Player {
                id: p.id,
                x: i64_specs::wrapping_add(p.x, e.dx),
                y: i64_specs::wrapping_add(p.y, e.dy),
            },
        )
    } else {
        ps
    }
}

/// The roster after a whole sequence of delta entries, applied in list order.
pub open spec fn apply_entries(ps: Seq<Player>, es: Seq<DeltaEntry>) -> Seq<Player>
    decreases es.len(),
{
    if es.len() == 0 {
        ps
    } else {
        apply_entries(step_entry(ps, es[0]), es.skip(1))
    }
}

pub proof fn lemma_apply_entries_len(ps: Seq<Player>, es: Seq<DeltaEntry>)
    ensures
        apply_entries(ps, es).len() == ps.len(),
    decreases es.len(),
{
    if es.len() > 0 {
        lemma_apply_entries_len(step_entry(ps, es[0]), es.skip(1));
    }
}

pub proof fn lemma_apply_entries_snoc(ps: Seq<Player>, es: Seq<DeltaEntry>, e: DeltaEntry)
    ensures
        apply_entries(ps, es.push(e)) == step_entry(apply_entries(ps, es), e),
    decreases es.len(),
{
    reveal_with_fuel(apply_entries, 3);
    if es.len() == 0 {
        assert(es.push(e)[0] == e);
        assert(es.push(e).skip(1) =~= Seq::<DeltaEntry>::empty());
    } else {
        assert(es.push(e)[0] == es[0]);
        assert(es.push(e).skip(1) =~= es.skip(1).push(e));
        lemma_apply_entries_snoc(step_entry(ps, es[0]), es.skip(1), e);
    }
}

/// The part of the changes of `es` addressed to player `pid`, summed exactly:
/// first coordinate.
pub open spec fn sum_dx(es: Seq<DeltaEntry>, pid: int) -> int
    decreases es.len(),
{
    if es.len() == 0 {
        0
    } else {
        (if es[0].pid == pid {
            es[0].dx as int
        } else {
            0
        }) + sum_dx(es.skip(1), pid)
    }
}

/// As `sum_dx`, second coordinate.
pub open spec fn sum_dy(es: Seq<DeltaEntry>, pid: int) -> int
    decreases es.len(),
{
    if es.len() == 0 {
        0
    } else {
        (if es[0].pid == pid {
            es[0].dy as int
        } else {
            0
        }) + sum_dy(es.skip(1), pid)
    }
}

/// Law: after a sequence of delta entries is applied in consumption order, a
/// player's final position equals its starting position plus the sum of all
/// change vectors addressed to it (wrapped to the `i64` range), independent
/// of how entries to other players interleave with them. Ids and the roster
/// size never change.
pub proof fn law_final_position(ps: Seq<Player>, es: Seq<DeltaEntry>, i: int)
    requires
        0 <= i < ps.len(),
        forall|k: int| 0 <= k < es.len() ==> (#[trigger] es[k]).pid < ps.len(),
    ensures
        apply_entries(ps, es).len() == ps.len(),
        apply_entries(ps, es)[i].id == ps[i].id,
        apply_entries(ps, es)[i].x == wrap64(ps[i].x + sum_dx(es, i)),
        apply_entries(ps, es)[i].y == wrap64(ps[i].y + sum_dy(es, i)),
    decreases es.len(),
{
    lemma_apply_entries_len(ps, es);
    if es.len() == 0 {
        lemma_wrap64_identity(ps[i].x as int);
        lemma_wrap64_identity(ps[i].y as int);
    } else {
        let e = es[0];
        let ps1 = step_entry(ps, e);
        assert(ps1.len() == ps.len());
        assert(forall|k: int|
            0 <= k < es.skip(1).len() ==> (#[trigger] es.skip(1)[k]).pid < ps1.len()) by {
            assert(forall|k: int|
                0 <= k < es.skip(1).len() ==> es.skip(1)[k] == es[k + 1]);
        }
        law_final_position(ps1, es.skip(1), i);
        if e.pid == i {
            lemma_wrapping_add_is_wrap64(ps[i].x, e.dx);
            lemma_wrapping_add_is_wrap64(ps[i].y, e.dy);
            lemma_wrap64_shift(ps[i].x + e.dx, sum_dx(es.skip(1), i));
            lemma_wrap64_shift(ps[i].y + e.dy, sum_dy(es.skip(1), i));
        } else {
            assert(ps1[i] == ps[i]);
        }
    }
}

/// Applying delta entries never changes the roster's size nor any player's
/// id, only positions.
pub proof fn lemma_apply_entries_wf(ps: Seq<Player>, es: Seq<DeltaEntry>)
    requires
        forall|k: int| 0 <= k < es.len() ==> (#[trigger] es[k]).pid < ps.len(),
    ensures
        apply_entries(ps, es).len() == ps.len(),
        forall|i: int|
            0 <= i < ps.len() ==> (#[trigger] apply_entries(ps, es)[i]).id == ps[i].id,
{
    lemma_apply_entries_len(ps, es);
    assert forall|i: int|
        0 <= i < ps.len() implies (#[trigger] apply_entries(ps, es)[i]).id == ps[i].id by {
        law_final_position(ps, es, i);
    }
}

/// The canonical shared state: one record per player (the index is the
/// session-stable id) and the 32-byte seed the immutable terrain was
/// generated from. Terrain generation itself is an outside collaborator; the
/// state keeps the seed that every peer needs to rebuild the same grid.
pub struct GameState {
    pub players: Vec<Player>,
    pub seed: Vec<u8>,
}

impl GameState {
    /// Well-formedness: the seed is exactly 32 bytes and each player's id is
    /// its roster index.
    pub open spec fn wf(&self) -> bool {
        &&& self.seed@.len() == 32
        &&& forall|i: int|
            0 <= i < self.players@.len() ==> (#[trigger] self.players@[i]).id == i
    }

    /// Builds the session roster: one default player per accepted
    /// connection, ids assigned in acceptance order.
    pub fn bootstrap(n_peers: usize, seed: Vec<u8>) -> (gs: GameState)
        requires
            seed@.len() == 32,
        ensures
            gs.wf(),
            gs.players@.len() == n_peers,
            forall|i: int|
                0 <= i < n_peers ==> (#[trigger] gs.players@[i]) == (Player {
                    id: i as usize,
                    x: 0i64,
                    y: 0i64,
                }),
            gs.seed@ == seed@,
    {
        let mut players: Vec<Player> = Vec::new();
        let mut i: usize = 0;
        while i < n_peers
            invariant
                i <= n_peers,
                players@.len() == i,
                forall|k: int|
                    0 <= k < i ==> (#[trigger] players@[k]) == (Player {
                        id: k as usize,
                        x: 0i64,
                        y: 0i64,
                    }),
            decreases n_peers - i,
        {
            players.push(Player::starting(i));
            i += 1;
        }
        GameState { players, seed }
    }

    /// Applies every entry of one delta, in list order, by adding the change
    /// vector to the addressed player's position (wrapping). No validity
    /// check against the terrain is made.
    pub fn apply_delta(&mut self, entries: &Vec<DeltaEntry>)
        requires
            forall|k: int|
                0 <= k < entries@.len() ==> (#[trigger] entries@[k]).pid < old(
                    self,
                ).players@.len(),
        ensures
            final(self).players@ == apply_entries(old(self).players@, entries@),
            final(self).seed@ == old(self).seed@,
    {
        let ghost ps0 = self.players@;
        let ghost seed0 = self.seed@;
        let n = entries.len();
        let mut j: usize = 0;
        while j < n
            invariant
                j <= n,
                n == entries@.len(),
                forall|k: int|
                    0 <= k < entries@.len() ==> (#[trigger] entries@[k]).pid < ps0.len(),
                self.players@ == apply_entries(ps0, entries@.take(j as int)),
                self.seed@ == seed0,
            decreases n - j,
        {
            let e = entries[j];
            proof {
                lemma_apply_entries_len(ps0, entries@.take(j as int));
                lemma_apply_entries_snoc(ps0, entries@.take(j as int), e);
                assert(entries@.take(j as int).push(e) =~= entries@.take(j + 1 as int));
            }
            let pid = e.pid;
            let mut pl = self.players[pid];
            pl.x = pl.x.wrapping_add(e.dx);
            pl.y = pl.y.wrapping_add(e.dy);
            self.players[pid] = pl;
            j += 1;
        }
        proof {
            assert(entries@.take(n as int) =~= entries@);
        }
    }
}

} // verus!

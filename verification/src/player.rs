//! The per-player record kept by the authority: a stable id and a position.
use vstd::prelude::*;

verus! {

/// One player's canonical record. The id equals the player's index in the
/// session roster and is fixed for the whole session; only the position moves.
#[derive(Clone, Copy, PartialEq, Eq, Structural, Debug)]
pub struct Player {
    pub id: usize,
    pub x: i64,
    pub y: i64,
}

impl Player {
    /// The default record a freshly accepted connection starts from:
    /// the assigned index as id, standing at the origin.
    pub fn starting(index: usize) -> (p: Player)
        ensures
            p == (Player { id: index, x: 0i64, y: 0i64 }),
    {
        Player { id: index, x: 0, y: 0 }
    }
}

/// One entry of a delta payload: a position change addressed to one player.
#[derive(Clone, Copy, PartialEq, Eq, Structural, Debug)]
pub struct DeltaEntry {
    pub pid: usize,
    pub dx: i64,
    pub dy: i64,
}

} // verus!

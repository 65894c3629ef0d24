//! Authoritative state-synchronization core for a session-based multiplayer
//! service: canonical per-player positions, a broadcast fan-out with no-drop
//! ordering under backpressure, and a shared liveness counter as the sole
//! shutdown signal.
use vstd::prelude::*;

pub mod authority;
pub mod busio;
pub mod liveness;
pub mod payload;
pub mod player;
pub mod state;
pub mod worker;

verus! {

/// Number of ticks per second that paces both the authority and the workers.
pub const NET_HZ: u32 = 1000;

} // verus!

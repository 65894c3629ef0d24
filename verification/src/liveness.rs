//! The liveness tally: the count of peers not yet disconnected, the sole
//! shutdown signal of a session. It only ever goes down; zero is terminal.
use vstd::prelude::*;

verus! {

/// The transition one disconnection makes: one step down, except that zero
/// is absorbing (a decrement at zero is a harmless no-op).
pub open spec fn dec_spec(n: nat) -> nat {
    if n > 0 {
        (n - 1) as nat
    } else {
        0
    }
}

/// Law: the liveness tally is monotonically non-increasing and can never go
/// below zero, however many disconnections are reported; and once it has
/// reached zero it stays there.
pub proof fn law_liveness_monotone(n: nat)
    ensures
        dec_spec(n) <= n,
        dec_spec(n) >= 0,
        n == 0 ==> dec_spec(n) == 0,
{
}

/// The tally of connected peers, initialized to the accepted-connection
/// count and decremented once per worker on its fatal condition. In the
/// threaded deployment the same transitions run on one shared atomic
/// integer; every decision here is taken on a polled value.
pub struct LivenessCounter {
    pub count: usize,
}

impl LivenessCounter {
    pub fn new(n_peers: usize) -> (c: LivenessCounter)
        ensures
            c.count == n_peers,
    {
        LivenessCounter { count: n_peers }
    }

    /// One peer is gone. Saturates at zero, so that reaching zero is a
    /// one-way, at-most-once signal.
    pub fn decrement(&mut self)
        ensures
            final(self).count == dec_spec(old(self).count as nat),
            final(self).count <= old(self).count,
    {
        if self.count > 0 {
            self.count = self.count - 1;
        }
    }

    /// The terminal test both the authority and every worker poll each tick.
    pub fn is_zero(&self) -> (r: bool)
        ensures
            r <==> self.count == 0,
    {
        self.count == 0
    }
}

} // verus!

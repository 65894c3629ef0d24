//! The broadcast bus: the bounded single-producer multi-consumer channel the
//! authority fans every payload out on. The channel itself comes from the
//! `bus` crate; the trusted items here state, over two named sequences, what
//! its operations do, as the crate's source shows: `bus_log` is everything
//! ever broadcast on a bus handle, `reader_log` everything a reader handle
//! has received so far. Each subscriber receives, in broadcast order, the
//! messages broadcast after its subscription.
use vstd::prelude::*;
use crate::payload::{views_of, Payload, PayloadView};

verus! {

#[verifier::external_type_specification]
#[verifier::external_body]
#[verifier::reject_recursive_types(T)]
pub struct ExBus<T>(bus::Bus<T>);

#[verifier::external_type_specification]
#[verifier::external_body]
#[verifier::reject_recursive_types(T)]
pub struct ExBusReader<T>(bus::BusReader<T>);

/// Every payload ever broadcast on this bus handle, in broadcast order.
pub uninterp spec fn bus_log(b: bus::Bus<Payload>) -> Seq<PayloadView>;

/// Every payload this reader handle has received so far, in the order
/// received.
pub uninterp spec fn reader_log(r: bus::BusReader<Payload>) -> Seq<PayloadView>;

/// Relies on `bus::Bus::try_broadcast`: without blocking, either appends the
/// value to the bus (`None`), or — when the bus is momentarily full — hands
/// the very same value back untouched (`Some`). Whether room exists depends
/// on the readers' progress, so no outcome is promised.
#[verifier::external_body]
pub(crate) fn bus_try_publish(b: &mut bus::Bus<Payload>, p: Payload) -> (r: Option<Payload>)
    ensures
        match r {
            None => bus_log(*final(b)) == bus_log(*old(b)).push(p@),
            Some(q) => q@ == p@ && bus_log(*final(b)) == bus_log(*old(b)),
        },
{
    match b.try_broadcast(p) {
        Ok(()) => None,
        Err(q) => Some(q),
    }
}

/// Relies on `bus::BusReader::recv`: blocks until the next broadcast after
/// this reader's subscription point and hands it over; `None` only when the
/// bus is gone and nothing further can ever arrive.
#[verifier::external_body]
pub(crate) fn reader_await(r: &mut bus::BusReader<Payload>) -> (p: Option<Payload>)
    ensures
        match p {
            Some(v) => reader_log(*final(r)) == reader_log(*old(r)).push(v@),
            None => reader_log(*final(r)) == reader_log(*old(r)),
        },
{
    match r.recv() {
        Ok(v) => Some(v),
        Err(_) => None,
    }
}

/// Relies on `bus::BusReader::try_recv`: without blocking, hands over the
/// next broadcast this reader has not yet received, in broadcast order, or
/// `None` when nothing is available right now (or ever again).
#[verifier::external_body]
pub(crate) fn reader_try_next(r: &mut bus::BusReader<Payload>) -> (p: Option<Payload>)
    ensures
        match p {
            Some(v) => reader_log(*final(r)) == reader_log(*old(r)).push(v@),
            None => reader_log(*final(r)) == reader_log(*old(r)),
        },
{
    match r.try_recv() {
        Ok(v) => Some(v),
        Err(_) => None,
    }
}

/// The worker's send-phase drain: takes the messages currently available
/// from this worker's reader — at most `max` of them, without blocking —
/// and returns them in exactly the order the bus delivered them: what the
/// worker then transmits to its peer, in order. A `max` of the bus capacity
/// covers everything that can be in flight at once; anything beyond it is
/// picked up next tick.
pub fn drain_reader(r: &mut bus::BusReader<Payload>, max: usize) -> (out: Vec<Payload>)
    ensures
        reader_log(*final(r)) == reader_log(*old(r)) + views_of(out@),
        out@.len() <= max,
{
    let ghost log0 = reader_log(*r);
    let mut out: Vec<Payload> = Vec::new();
    proof {
        assert(log0 + views_of(out@) =~= log0);
    }
    let mut taken: usize = 0;
    while taken < max
        invariant
            taken <= max,
            out@.len() == taken,
            reader_log(*r) == log0 + views_of(out@),
        decreases max - taken,
    {
        let ghost before = out@;
        match reader_try_next(r) {
            Some(p) => {
                proof {
                    assert(views_of(before.push(p)) =~= views_of(before).push(p@));
                }
                out.push(p);
                taken += 1;
            },
            None => {
                break ;
            },
        }
    }
    out
}

} // verus!

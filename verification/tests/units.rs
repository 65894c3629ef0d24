//! Unit-level checks of the verified core: position arithmetic, the
//! liveness tally, the handshake decisions, and the drawn seed.
use statesync::authority::{draw_seed, Authority};
use statesync::liveness::LivenessCounter;
use statesync::payload::Payload;
use statesync::player::{DeltaEntry, Player};
use statesync::state::GameState;
use statesync::worker::{InboundAction, InboundEvent, Worker};

#[test]
fn positions_sum_in_consumption_order_whoever_sent_each_entry() {
    let mut gs = GameState::bootstrap(3, vec![0u8; 32]);
    gs.apply_delta(&vec![
        DeltaEntry { pid: 0, dx: 5, dy: -2 },
        DeltaEntry { pid: 2, dx: 1, dy: 1 },
        DeltaEntry { pid: 0, dx: -3, dy: 10 },
        DeltaEntry { pid: 2, dx: 4, dy: 0 },
    ]);
    assert_eq!(gs.players[0], Player { id: 0, x: 2, y: 8 });
    assert_eq!(gs.players[1], Player { id: 1, x: 0, y: 0 });
    assert_eq!(gs.players[2], Player { id: 2, x: 5, y: 1 });
}

#[test]
fn position_arithmetic_wraps_at_the_i64_boundary() {
    let mut gs = GameState::bootstrap(1, vec![0u8; 32]);
    gs.apply_delta(&vec![DeltaEntry { pid: 0, dx: i64::MAX, dy: i64::MIN }]);
    gs.apply_delta(&vec![DeltaEntry { pid: 0, dx: 1, dy: -1 }]);
    assert_eq!(gs.players[0].x, i64::MIN);
    assert_eq!(gs.players[0].y, i64::MAX);
}

#[test]
fn liveness_only_falls_and_zero_is_absorbing() {
    let mut live = LivenessCounter::new(2);
    assert!(!live.is_zero());
    live.decrement();
    assert_eq!(live.count, 1);
    live.decrement();
    assert_eq!(live.count, 0);
    assert!(live.is_zero());
    live.decrement();
    assert_eq!(live.count, 0);
}

#[test]
fn stamping_refuses_a_first_message_that_is_no_snapshot() {
    let w = Worker::new(1);
    let not_snapshot = Payload::Delta { entries: vec![] };
    assert!(w.stamp_snapshot(not_snapshot).is_none());
    let snap = Payload::Snapshot { roster: vec![], seed: vec![9u8; 32], pid: None };
    let stamped = w.stamp_snapshot(snap).expect("a snapshot is accepted");
    assert_eq!(
        stamped,
        Payload::Snapshot { roster: vec![], seed: vec![9u8; 32], pid: Some(1) }
    );
}

#[test]
fn inbound_decisions_forward_packets_and_wait_on_idle() {
    let mut w = Worker::new(0);
    let p = Payload::Delta { entries: vec![DeltaEntry { pid: 0, dx: 1, dy: 1 }] };
    match w.on_inbound(InboundEvent::Packet(p.clone())) {
        InboundAction::Forward(q) => assert_eq!(q, p),
        _ => panic!("a decoded payload is forwarded unmodified"),
    }
    match w.on_inbound(InboundEvent::Idle) {
        InboundAction::Wait => {},
        _ => panic!("no data now only ends the receive phase"),
    }
    assert!(!w.should_exit(2));
}

#[test]
fn the_drawn_seed_has_thirty_two_bytes() {
    assert_eq!(draw_seed().len(), 32);
}

#[test]
fn a_snapshot_in_the_aggregate_stream_is_echoed_but_moves_nobody() {
    let mut bus = bus::Bus::new(8);
    let mut reader = bus.add_rx();
    let mut authority = Authority::bootstrap(1, vec![3u8; 32]);
    authority.flush(&mut bus);
    let _ = statesync::busio::drain_reader(&mut reader, 8);

    let stray = Payload::Snapshot { roster: vec![], seed: vec![3u8; 32], pid: Some(0) };
    authority.tick(vec![stray.clone()], &mut bus, 1);
    assert_eq!(authority.state.players[0], Player { id: 0, x: 0, y: 0 });
    let got = statesync::busio::drain_reader(&mut reader, 8);
    assert_eq!(got, vec![stray]);
}

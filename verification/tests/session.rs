//! End-to-end session scenarios driven over a real broadcast bus.
use statesync::authority::Authority;
use statesync::busio::drain_reader;
use statesync::liveness::LivenessCounter;
use statesync::payload::Payload;
use statesync::player::{DeltaEntry, Player};
use statesync::worker::{InboundAction, InboundEvent, Worker};

fn delta(entries: Vec<DeltaEntry>) -> Payload {
    Payload::Delta { entries }
}

#[test]
fn bootstrap_publishes_snapshot_and_workers_stamp_their_index() {
    let seed: Vec<u8> = (0u8..32).collect();
    let mut bus = bus::Bus::new(16);
    let mut r0 = bus.add_rx();
    let mut r1 = bus.add_rx();
    let mut authority = Authority::bootstrap(2, seed.clone());
    authority.flush(&mut bus);

    let w0 = Worker::new(0);
    let w1 = Worker::new(1);
    let s0 = w0.handshake(&mut r0).expect("first message must be the snapshot");
    let s1 = w1.handshake(&mut r1).expect("first message must be the snapshot");

    let roster = vec![
        Player { id: 0, x: 0, y: 0 },
        Player { id: 1, x: 0, y: 0 },
    ];
    assert_eq!(
        s0,
        Payload::Snapshot { roster: roster.clone(), seed: seed.clone(), pid: Some(0) }
    );
    assert_eq!(s1, Payload::Snapshot { roster, seed, pid: Some(1) });
}

#[test]
fn delta_moves_player_and_is_echoed_to_every_reader() {
    let seed: Vec<u8> = vec![7u8; 32];
    let mut bus = bus::Bus::new(16);
    let mut r0 = bus.add_rx();
    let mut r1 = bus.add_rx();
    let mut authority = Authority::bootstrap(2, seed);
    authority.flush(&mut bus);
    let _ = drain_reader(&mut r0, 16);
    let _ = drain_reader(&mut r1, 16);

    let d = delta(vec![DeltaEntry { pid: 0, dx: 1, dy: 0 }]);
    let exit = authority.tick(vec![d.clone()], &mut bus, 2);
    assert!(!exit);
    assert_eq!(authority.state.players[0], Player { id: 0, x: 1, y: 0 });
    assert_eq!(authority.state.players[1], Player { id: 1, x: 0, y: 0 });

    let got0 = drain_reader(&mut r0, 16);
    let got1 = drain_reader(&mut r1, 16);
    assert_eq!(got0, vec![d.clone()]);
    assert_eq!(got1, vec![d]);
}

#[test]
fn full_bus_requeues_to_the_front_and_keeps_origination_order() {
    let mut bus = bus::Bus::new(1);
    let mut reader = bus.add_rx();
    let mut authority = Authority::bootstrap(1, vec![0u8; 32]);
    // Get the snapshot out of the way so the tick below starts with an
    // empty queue and a bus with exactly one free slot.
    authority.flush(&mut bus);
    let first = drain_reader(&mut reader, 4);
    assert_eq!(first.len(), 1);

    let a = delta(vec![DeltaEntry { pid: 0, dx: 1, dy: 0 }]);
    let b = delta(vec![DeltaEntry { pid: 0, dx: 0, dy: 1 }]);
    let exit = authority.tick(vec![a.clone(), b.clone()], &mut bus, 1);
    assert!(!exit);
    // Capacity 1 and an undrained reader: only the first delta went out.
    let got = drain_reader(&mut reader, 4);
    assert_eq!(got, vec![a]);
    // Next tick, capacity freed: the requeued delta is delivered, order kept.
    let exit = authority.tick(vec![], &mut bus, 1);
    assert!(!exit);
    let got = drain_reader(&mut reader, 4);
    assert_eq!(got, vec![b]);
    // Nothing was lost and the state saw both changes.
    assert_eq!(authority.state.players[0], Player { id: 0, x: 1, y: 1 });
}

#[test]
fn late_subscriber_sees_nothing_from_before_its_subscription() {
    let mut bus = bus::Bus::new(8);
    let mut early = bus.add_rx();
    let mut authority = Authority::bootstrap(1, vec![1u8; 32]);
    authority.flush(&mut bus);

    let mut late = bus.add_rx();
    let d = delta(vec![DeltaEntry { pid: 0, dx: 2, dy: 3 }]);
    authority.tick(vec![d.clone()], &mut bus, 1);

    let early_got = drain_reader(&mut early, 8);
    assert_eq!(early_got.len(), 2); // snapshot, then the delta
    assert_eq!(early_got[1], d.clone());
    let late_got = drain_reader(&mut late, 8);
    assert_eq!(late_got, vec![d]); // no snapshot: published before subscribing
}

#[test]
fn every_reader_sees_publishes_in_publish_order() {
    let mut bus = bus::Bus::new(8);
    let mut r0 = bus.add_rx();
    let mut r1 = bus.add_rx();
    let mut authority = Authority::bootstrap(1, vec![5u8; 32]);
    authority.flush(&mut bus);

    let batch: Vec<Payload> = (1..=3i64)
        .map(|i| delta(vec![DeltaEntry { pid: 0, dx: i, dy: -i }]))
        .collect();
    authority.tick(batch.clone(), &mut bus, 1);

    for reader in [&mut r0, &mut r1] {
        let got = drain_reader(reader, 8);
        assert_eq!(got.len(), 4); // the snapshot, then the three deltas
        assert_eq!(&got[1..], &batch[..]);
    }
}

#[test]
fn fatal_decode_disconnects_one_peer_and_session_survives_until_the_last() {
    let mut live = LivenessCounter::new(2);
    let mut w0 = Worker::new(0);
    let mut w1 = Worker::new(1);

    // Peer 0's decode returns Fatal: the tally drops from 2 to 1.
    match w0.on_inbound(InboundEvent::Fatal) {
        InboundAction::Halt => live.decrement(),
        _ => panic!("a first fatal decode must ask for the decrement"),
    }
    assert_eq!(live.count, 1);
    assert!(w0.should_exit(live.count));
    assert!(!w1.should_exit(live.count));

    // A repeated fatal condition on the same worker decrements nothing.
    match w0.on_inbound(InboundEvent::Fatal) {
        InboundAction::Halt => panic!("a worker reports its disconnection only once"),
        _ => {},
    }
    assert_eq!(live.count, 1);

    // Peer 1 fails on transmit: the tally reaches zero and everyone exits.
    if w1.on_send_fatal() {
        live.decrement();
    }
    assert_eq!(live.count, 0);
    assert!(w1.should_exit(live.count));
    let mut bus = bus::Bus::new(4);
    let mut authority = Authority::bootstrap(2, vec![0u8; 32]);
    let exit = authority.tick(vec![], &mut bus, live.count);
    assert!(exit);
}

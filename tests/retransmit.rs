use ssu2_pending::retransmit::{PacketRetransmitter, PacketRetransmitterEvent};

fn fire_all(mut r: PacketRetransmitter, firings: usize) -> Vec<Option<PacketRetransmitterEvent>> {
    let mut events = Vec::new();
    for _ in 0..firings {
        events.push(r.fire());
    }
    events
}

fn check_schedule(mut r: PacketRetransmitter, pkt: &[u8], initial: u64, delays: &[u64]) {
    assert_eq!(r.armed_delay(), Some(initial));
    assert_eq!(r.remaining_retransmits(), delays.len());
    for delay in delays {
        match r.fire() {
            Some(PacketRetransmitterEvent::Retransmit { pkt: sent }) => assert_eq!(sent, pkt),
            _ => panic!("expected a retransmit"),
        }
        assert_eq!(r.armed_delay(), Some(*delay));
    }
    assert!(matches!(r.fire(), Some(PacketRetransmitterEvent::Timeout)));
    assert_eq!(r.armed_delay(), None);
    for _ in 0..3 {
        assert!(r.fire().is_none());
    }
}

#[test]
fn token_request_schedule() {
    let pkt = vec![1u8, 2, 3];
    check_schedule(PacketRetransmitter::token_request(pkt.clone()), &pkt, 3000, &[6000, 6000]);
}

#[test]
fn session_request_schedule() {
    let pkt = vec![4u8, 5];
    check_schedule(PacketRetransmitter::session_request(pkt.clone()), &pkt, 1250, &[2500, 5000, 6250]);
}

#[test]
fn session_created_schedule() {
    let pkt = vec![6u8; 40];
    check_schedule(PacketRetransmitter::session_created(pkt.clone()), &pkt, 1000, &[2000, 4000, 5000]);
}

#[test]
fn session_confirmed_schedule() {
    let pkt = vec![7u8, 8, 9, 10];
    check_schedule(PacketRetransmitter::session_confirmed(pkt.clone()), &pkt, 1250, &[2500, 5000, 6250]);
}

#[test]
fn inactive_times_out_once() {
    let r = PacketRetransmitter::inactive(15_000);
    assert_eq!(r.armed_delay(), Some(15_000));
    let events = fire_all(r, 4);
    assert!(matches!(events[0], Some(PacketRetransmitterEvent::Timeout)));
    assert!(events[1..].iter().all(|e| e.is_none()));
}

#[test]
fn empty_packet_is_retransmitted_as_is() {
    let events = fire_all(PacketRetransmitter::token_request(Vec::new()), 3);
    for event in &events[..2] {
        match event {
            Some(PacketRetransmitterEvent::Retransmit { pkt }) => assert!(pkt.is_empty()),
            _ => panic!("expected a retransmit"),
        }
    }
    assert!(matches!(events[2], Some(PacketRetransmitterEvent::Timeout)));
}

#[test]
fn tick_waits_for_the_armed_delay() {
    let mut r = PacketRetransmitter::inactive(500);
    assert!(r.tick(0).is_none());
    assert!(r.tick(499).is_none());
    assert_eq!(r.armed_delay(), Some(500));
    assert!(matches!(r.tick(500), Some(PacketRetransmitterEvent::Timeout)));
    assert!(r.tick(u64::MAX).is_none());

    let mut r = PacketRetransmitter::session_request(vec![1]);
    assert!(r.tick(1249).is_none());
    assert!(matches!(r.tick(1250), Some(PacketRetransmitterEvent::Retransmit { .. })));
    assert_eq!(r.armed_delay(), Some(2500));
    assert!(r.tick(2499).is_none());
    assert_eq!(r.remaining_retransmits(), 2);
}

#[test]
fn discarded_before_firing_produces_nothing() {
    let mut r = PacketRetransmitter::session_created(vec![1, 2]);
    assert!(r.tick(999).is_none());
    assert_eq!(r.remaining_retransmits(), 3);
    assert_eq!(r.armed_delay(), Some(1000));
    drop(r);
}

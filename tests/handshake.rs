use ssu2_pending::inbound::{ConfirmationVerdict, InboundHandshake, InboundStage, InitiationVerdict};
use ssu2_pending::outbound::{FirstDataVerdict, OutboundHandshake, OutboundStage, ResponseVerdict};
use ssu2_pending::status::{Action, PendingSsu2SessionStatus};

type Addr = (u32, u16);
type Step = Action<&'static str, Addr>;

const TARGET: Addr = (0x7f00_0001, 8888);

fn sent(action: Step) -> Vec<u8> {
    match action {
        Action::Send { pkt } => pkt,
        _ => panic!("expected a packet to send"),
    }
}

fn resolved(action: Step) -> PendingSsu2SessionStatus<&'static str, Addr> {
    match action {
        Action::Resolve { status } => status,
        _ => panic!("expected an outcome"),
    }
}

fn is_idle(action: &Step) -> bool {
    matches!(action, Action::Idle)
}

#[test]
fn inbound_valid_handshake_establishes_session() {
    let mut session = InboundHandshake::new(11, 100, TARGET, 15_000);
    let created = sent(session.on_initiation(InitiationVerdict::Accepted { pkt: vec![1, 2, 3] }));
    assert_eq!(created, vec![1, 2, 3]);
    assert_eq!(session.stage(), InboundStage::AwaitingConfirmation);

    let status = resolved(session.on_confirmation(ConfirmationVerdict::Accepted {
        context: "keys",
        ack: vec![9, 9],
    }));
    match status {
        PendingSsu2SessionStatus::NewInboundSession { context, dst_id, pkt, started, target } => {
            assert_eq!(context, "keys");
            assert_eq!(dst_id, 11);
            assert_eq!(pkt, vec![9, 9]);
            assert_eq!(started, 100);
            assert_eq!(target, TARGET);
        }
        _ => panic!("expected a new inbound session"),
    }
    assert_eq!(session.stage(), InboundStage::Resolved);
}

#[test]
fn inbound_corrupted_confirmation_terminates() {
    let mut session = InboundHandshake::new(12, 5, TARGET, 15_000);
    sent(session.on_initiation::<&'static str>(InitiationVerdict::Accepted { pkt: vec![1] }));
    let status = resolved(session.on_confirmation(ConfirmationVerdict::Invalid));
    match status {
        PendingSsu2SessionStatus::SessionTerminated { connection_id, router_id, started } => {
            assert_eq!(connection_id, 12);
            assert!(router_id.is_none());
            assert_eq!(started, 5);
        }
        _ => panic!("expected a termination"),
    }
}

#[test]
fn inbound_retry_then_new_request() {
    let mut session = InboundHandshake::new(13, 0, TARGET, 15_000);
    assert_eq!(sent(session.on_initiation(InitiationVerdict::Retry { pkt: vec![7] })), vec![7]);
    assert_eq!(session.stage(), InboundStage::RetrySent);
    assert!(is_idle(&session.on_initiation(InitiationVerdict::Retry { pkt: vec![7] })));
    assert_eq!(sent(session.on_initiation(InitiationVerdict::Accepted { pkt: vec![8] })), vec![8]);
    assert_eq!(session.stage(), InboundStage::AwaitingConfirmation);
}

#[test]
fn inbound_retry_without_answer_times_out() {
    let mut session = InboundHandshake::new(14, 1, TARGET, 15_000);
    sent(session.on_initiation(InitiationVerdict::Retry { pkt: vec![7] }));
    let status = resolved(session.on_timer());
    assert!(matches!(
        status,
        PendingSsu2SessionStatus::Timeout { connection_id: 14, router_id: None, started: 1 }
    ));
    assert!(is_idle(&session.on_timer()));
}

#[test]
fn inbound_session_created_retransmits_then_times_out() {
    let mut session = InboundHandshake::new(15, 1, TARGET, 15_000);
    sent(session.on_initiation(InitiationVerdict::Accepted { pkt: vec![4, 4] }));
    for _ in 0..3 {
        assert_eq!(sent(session.on_timer()), vec![4, 4]);
    }
    assert!(matches!(resolved(session.on_timer()), PendingSsu2SessionStatus::Timeout { .. }));
}

#[test]
fn inbound_invalid_initiation_terminates() {
    let mut session = InboundHandshake::new(16, 2, TARGET, 15_000);
    assert!(matches!(
        resolved(session.on_initiation(InitiationVerdict::Invalid)),
        PendingSsu2SessionStatus::SessionTerminated { connection_id: 16, .. }
    ));
}

#[test]
fn inbound_duplicates_are_ignored() {
    let mut session = InboundHandshake::new(17, 2, TARGET, 15_000);
    assert!(is_idle(&session.on_confirmation(ConfirmationVerdict::Accepted { context: "x", ack: vec![] })));
    assert!(is_idle(&session.on_timer()));
    sent(session.on_initiation(InitiationVerdict::Accepted { pkt: vec![1] }));
    assert!(is_idle(&session.on_initiation(InitiationVerdict::Accepted { pkt: vec![1] })));
    assert!(is_idle(&session.on_initiation(InitiationVerdict::Invalid)));
    assert_eq!(session.stage(), InboundStage::AwaitingConfirmation);
    // the schedule of SessionCreated was not re-armed: three retransmits remain
    for _ in 0..3 {
        assert_eq!(sent(session.on_timer()), vec![1]);
    }
    resolved(session.on_confirmation(ConfirmationVerdict::Accepted { context: "x", ack: vec![] }));
    assert!(is_idle(&session.on_confirmation(ConfirmationVerdict::Accepted { context: "x", ack: vec![] })));
    assert!(is_idle(&session.on_initiation(InitiationVerdict::Accepted { pkt: vec![1] })));
}

#[test]
fn outbound_valid_handshake_establishes_session_on_first_data() {
    let mut session = OutboundHandshake::new(21, vec![0xaa; 32], 50, vec![1, 1]);
    assert_eq!(session.stage(), OutboundStage::AwaitingResponse);
    let confirmation = sent(session.on_response(ResponseVerdict::Accepted { confirmation: vec![2, 2] }));
    assert_eq!(confirmation, vec![2, 2]);
    assert_eq!(session.stage(), OutboundStage::AwaitingFirstData);
    let status = resolved(session.on_first_data(FirstDataVerdict::Accepted { context: "keys" }));
    assert!(matches!(
        status,
        PendingSsu2SessionStatus::NewOutboundSession { context: "keys", src_id: 21, started: 50 }
    ));
}

#[test]
fn outbound_unanswered_request_times_out() {
    let mut session = OutboundHandshake::new(22, vec![0xbb; 32], 7, vec![3, 3]);
    for _ in 0..3 {
        assert_eq!(sent(session.on_timer()), vec![3, 3]);
    }
    match resolved(session.on_timer()) {
        PendingSsu2SessionStatus::Timeout { connection_id, router_id, started } => {
            assert_eq!(connection_id, 22);
            assert_eq!(router_id, Some(vec![0xbb; 32]));
            assert_eq!(started, 7);
        }
        _ => panic!("expected a timeout"),
    }
    assert!(is_idle(&session.on_timer()));
}

#[test]
fn outbound_confirmation_without_data_times_out() {
    let mut session = OutboundHandshake::new(23, vec![0xcc; 32], 7, vec![3]);
    sent(session.on_response(ResponseVerdict::Accepted { confirmation: vec![5, 5, 5] }));
    for _ in 0..3 {
        assert_eq!(sent(session.on_timer()), vec![5, 5, 5]);
    }
    let status = resolved(session.on_timer());
    assert!(matches!(status, PendingSsu2SessionStatus::Timeout { connection_id: 23, .. }));
    assert!(is_idle(&session.on_first_data(FirstDataVerdict::Accepted { context: "late" })));
}

#[test]
fn outbound_invalid_messages_terminate() {
    let mut session = OutboundHandshake::new(24, vec![1], 0, vec![3]);
    match resolved(session.on_response(ResponseVerdict::Invalid)) {
        PendingSsu2SessionStatus::SessionTerminated { connection_id, router_id, .. } => {
            assert_eq!(connection_id, 24);
            assert_eq!(router_id, Some(vec![1]));
        }
        _ => panic!("expected a termination"),
    }

    let mut session = OutboundHandshake::new(25, vec![1], 0, vec![3]);
    sent(session.on_response(ResponseVerdict::Accepted { confirmation: vec![4] }));
    assert!(matches!(
        resolved(session.on_first_data(FirstDataVerdict::Invalid)),
        PendingSsu2SessionStatus::SessionTerminated { connection_id: 25, .. }
    ));
}

#[test]
fn outbound_duplicates_are_ignored() {
    let mut session = OutboundHandshake::new(26, vec![1], 0, vec![3]);
    assert!(is_idle(&session.on_first_data(FirstDataVerdict::Accepted { context: "early" })));
    sent(session.on_response(ResponseVerdict::Accepted { confirmation: vec![4] }));
    assert!(is_idle(&session.on_response(ResponseVerdict::Accepted { confirmation: vec![9] })));
    assert!(is_idle(&session.on_response(ResponseVerdict::Invalid)));
    assert_eq!(session.stage(), OutboundStage::AwaitingFirstData);
    // still the confirmation's schedule, not re-armed by the duplicate
    for _ in 0..3 {
        assert_eq!(sent(session.on_timer()), vec![4]);
    }
    assert!(matches!(resolved(session.on_timer()), PendingSsu2SessionStatus::Timeout { .. }));
}

#[test]
fn socket_closure_resolves_pending_sessions() {
    let mut inbound = InboundHandshake::new(31, 1_000, TARGET, 15_000);
    let status = resolved(inbound.close());
    assert!(matches!(status, PendingSsu2SessionStatus::SocketClosed { started: 1_000 }));
    assert_eq!(status.duration(1_250), 250);
    assert_eq!(status.duration(900), 0);
    assert!(is_idle(&inbound.close()));

    let mut inbound = InboundHandshake::new(32, 0, TARGET, 15_000);
    sent(inbound.on_initiation(InitiationVerdict::Accepted { pkt: vec![1] }));
    assert!(matches!(resolved(inbound.close()), PendingSsu2SessionStatus::SocketClosed { started: 0 }));
    assert!(is_idle(&inbound.on_timer()));

    let mut outbound = OutboundHandshake::new(33, vec![1], 40, vec![3]);
    sent(outbound.on_response(ResponseVerdict::Accepted { confirmation: vec![4] }));
    let status = resolved(outbound.close());
    assert!(matches!(status, PendingSsu2SessionStatus::SocketClosed { started: 40 }));
    assert_eq!(status.started(), 40);
    assert_eq!(status.duration(100), 60);
    assert!(is_idle(&outbound.on_timer()));
}

#[test]
fn duration_of_each_outcome() {
    let statuses: Vec<PendingSsu2SessionStatus<&'static str, Addr>> = vec![
        PendingSsu2SessionStatus::NewInboundSession { context: "c", dst_id: 1, pkt: vec![], started: 10, target: TARGET },
        PendingSsu2SessionStatus::NewOutboundSession { context: "c", src_id: 1, started: 10 },
        PendingSsu2SessionStatus::SessionTerminated { connection_id: 1, router_id: None, started: 10 },
        PendingSsu2SessionStatus::Timeout { connection_id: 1, router_id: None, started: 10 },
        PendingSsu2SessionStatus::SocketClosed { started: 10 },
    ];
    for status in &statuses {
        assert_eq!(status.duration(35), 25);
        assert_eq!(status.duration(u64::MAX), u64::MAX - 10);
    }
}

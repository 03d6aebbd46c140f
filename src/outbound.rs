//! Outbound handshake: the local router is the initiator.
//!
//! The session sends `SessionRequest` when it is made, awaits `SessionCreated`,
//! answers with `SessionConfirmed` and is established only when the first
//! `Data` packet of the peer arrives. The handshake layer judges each message
//! and hands its verdict to the session.
use crate::retransmit::{
    session_request_schedule, step, EventModel, PacketRetransmitter, PacketRetransmitterEvent,
    RetransmitModel,
};
use crate::status::{timed_out_with, terminated_with, Action, PendingSsu2SessionStatus, TimerAction};
use vstd::prelude::*;

verus! {

/// Stage of an outbound handshake.
#[derive(Clone, Copy, Debug, PartialEq, Eq, Structural)]
pub enum OutboundStage {
    /// `SessionRequest` sent.
    AwaitingResponse,
    /// `SessionConfirmed` sent.
    AwaitingFirstData,
    /// An outcome has been reported.
    Resolved,
}

/// The handshake layer's verdict on `SessionCreated`.
pub enum ResponseVerdict {
    /// The message failed validation.
    Invalid,
    /// The message is valid; `confirmation` is the `SessionConfirmed` to send.
    Accepted { confirmation: Vec<u8> },
}

/// The handshake layer's verdict on the first `Data` packet.
pub enum FirstDataVerdict<C> {
    /// The packet failed validation.
    Invalid,
    /// The packet is valid; `context` is the context of the active session.
    Accepted { context: C },
}

/// Mathematical form of an outbound handshake.
pub struct OutboundModel {
    pub src_id: u64,
    pub router_id: Seq<u8>,
    pub started: u64,
    pub stage: OutboundStage,
    pub timer: RetransmitModel,
}

/// One timer firing of an outbound handshake.
pub open spec fn outbound_timer_step(m: OutboundModel) -> (OutboundModel, TimerAction) {
    if m.stage == OutboundStage::Resolved {
        (m, TimerAction::Idle)
    } else {
        let (t, ev) = step(m.timer);
        match ev {
            Some(EventModel::Retransmit(p)) => (OutboundModel { timer: t, ..m }, TimerAction::Send(p)),
            Some(EventModel::Timeout) => (
                OutboundModel { timer: t, stage: OutboundStage::Resolved, ..m },
                TimerAction::TimedOut,
            ),
            None => (OutboundModel { timer: t, ..m }, TimerAction::Idle),
        }
    }
}

/// What `n` successive timer firings ask for, starting in `m`.
pub open spec fn outbound_timer_run(m: OutboundModel, n: nat) -> Seq<TimerAction>
    decreases n,
{
    if n == 0 {
        Seq::empty()
    } else {
        seq![outbound_timer_step(m).1] + outbound_timer_run(outbound_timer_step(m).0, (n - 1) as nat)
    }
}

/// Timer actions of an exhausted schedule: `sends` retransmits of `pkt`, a
/// timeout, then `extra` idle firings.
pub open spec fn exhausted_actions(pkt: Seq<u8>, sends: nat, extra: nat) -> Seq<TimerAction> {
    Seq::new(sends, |i: int| TimerAction::Send(pkt)) + seq![TimerAction::TimedOut] + Seq::new(
        extra,
        |i: int| TimerAction::Idle,
    )
}

/// Pending outbound session.
pub struct OutboundHandshake {
    src_id: u64,
    router_id: Vec<u8>,
    started: u64,
    stage: OutboundStage,
    timer: PacketRetransmitter,
}

impl View for OutboundHandshake {
    type V = OutboundModel;

    closed spec fn view(&self) -> OutboundModel {
        OutboundModel {
            src_id: self.src_id,
            router_id: self.router_id@,
            started: self.started,
            stage: self.stage,
            timer: self.timer@,
        }
    }
}

impl OutboundHandshake {
    /// While the handshake is pending a timer is armed.
    pub open spec fn wf(&self) -> bool {
        self@.stage != OutboundStage::Resolved ==> self@.timer.timer is Some
    }

    /// Start a handshake with `router_id` whose `SessionRequest` (`request`)
    /// has just been sent, at time `started`.
    pub fn new(src_id: u64, router_id: Vec<u8>, started: u64, request: Vec<u8>) -> (r: Self)
        ensures
            r@ == (OutboundModel {
                src_id,
                router_id: router_id@,
                started,
                stage: OutboundStage::AwaitingResponse,
                timer: session_request_schedule(request@),
            }),
            r.wf(),
    {
        OutboundHandshake {
            src_id,
            router_id,
            started,
            stage: OutboundStage::AwaitingResponse,
            timer: PacketRetransmitter::session_request(request),
        }
    }

    /// Stage of the handshake.
    pub fn stage(&self) -> (r: OutboundStage)
        ensures
            r == self@.stage,
    {
        self.stage
    }

    /// Source connection ID.
    pub fn src_id(&self) -> (r: u64)
        ensures
            r == self@.src_id,
    {
        self.src_id
    }

    fn router(&self) -> (r: Option<Vec<u8>>)
        ensures
            r matches Some(v) && v@ == self@.router_id,
    {
        let id = self.router_id.clone();
        proof {
            assert(id@ =~= self.router_id@);
        }
        Some(id)
    }

    /// `SessionCreated` arrived. While it is awaited, a valid one is answered
    /// with `SessionConfirmed`, whose schedule replaces that of the request,
    /// and an invalid one terminates the session. Otherwise nothing changes.
    pub fn on_response<C, A>(&mut self, verdict: ResponseVerdict) -> (r: Action<C, A>)
        requires
            old(self).wf(),
        ensures
            final(self).wf(),
            old(self)@.stage == OutboundStage::AwaitingResponse ==> match verdict {
                ResponseVerdict::Invalid => final(self)@ == (OutboundModel {
                    stage: OutboundStage::Resolved,
                    ..old(self)@
                }) && (r matches Action::Resolve { status } && terminated_with(
                    status,
                    old(self)@.src_id,
                    Some(old(self)@.router_id),
                    old(self)@.started,
                )),
                ResponseVerdict::Accepted { confirmation } => final(self)@ == (OutboundModel {
                    stage: OutboundStage::AwaitingFirstData,
                    timer: session_request_schedule(confirmation@),
                    ..old(self)@
                }) && (r matches Action::Send { pkt } && pkt@ == confirmation@),
            },
            old(self)@.stage != OutboundStage::AwaitingResponse ==> final(self)@ == old(self)@
                && (r is Idle),
    {
        if self.stage != OutboundStage::AwaitingResponse {
            return Action::Idle;
        }
        match verdict {
            ResponseVerdict::Invalid => {
                self.stage = OutboundStage::Resolved;
                let router_id = self.router();
                Action::Resolve {
                    status: PendingSsu2SessionStatus::SessionTerminated {
                        connection_id: self.src_id,
                        router_id,
                        started: self.started,
                    },
                }
            },
            ResponseVerdict::Accepted { confirmation } => {
                let pkt = confirmation.clone();
                proof {
                    assert(pkt@ =~= confirmation@);
                }
                self.timer = PacketRetransmitter::session_confirmed(confirmation);
                self.stage = OutboundStage::AwaitingFirstData;
                Action::Send { pkt }
            },
        }
    }

    /// The first `Data` packet arrived. While it is awaited, a valid one
    /// establishes the session and an invalid one terminates it. Otherwise
    /// nothing changes.
    pub fn on_first_data<C, A>(&mut self, verdict: FirstDataVerdict<C>) -> (r: Action<C, A>)
        requires
            old(self).wf(),
        ensures
            final(self).wf(),
            old(self)@.stage == OutboundStage::AwaitingFirstData ==> final(self)@ == (OutboundModel {
                stage: OutboundStage::Resolved,
                ..old(self)@
            }) && match verdict {
                FirstDataVerdict::Invalid => r matches Action::Resolve { status } && terminated_with(
                    status,
                    old(self)@.src_id,
                    Some(old(self)@.router_id),
                    old(self)@.started,
                ),
                FirstDataVerdict::Accepted { context } => r == (Action::<C, A>::Resolve {
                    status: PendingSsu2SessionStatus::NewOutboundSession {
                        context,
                        src_id: old(self)@.src_id,
                        started: old(self)@.started,
                    },
                }),
            },
            old(self)@.stage != OutboundStage::AwaitingFirstData ==> final(self)@ == old(self)@
                && (r is Idle),
    {
        if self.stage != OutboundStage::AwaitingFirstData {
            return Action::Idle;
        }
        self.stage = OutboundStage::Resolved;
        match verdict {
            FirstDataVerdict::Invalid => {
                let router_id = self.router();
                Action::Resolve {
                    status: PendingSsu2SessionStatus::SessionTerminated {
                        connection_id: self.src_id,
                        router_id,
                        started: self.started,
                    },
                }
            },
            FirstDataVerdict::Accepted { context } => Action::Resolve {
                status: PendingSsu2SessionStatus::NewOutboundSession {
                    context,
                    src_id: self.src_id,
                    started: self.started,
                },
            },
        }
    }

    /// The armed timer elapsed: retransmit the last message sent, or report
    /// a timeout when its schedule is exhausted.
    pub fn on_timer<C, A>(&mut self) -> (r: Action<C, A>)
        requires
            old(self).wf(),
        ensures
            final(self).wf(),
            final(self)@ == outbound_timer_step(old(self)@).0,
            match outbound_timer_step(old(self)@).1 {
                TimerAction::Idle => (r is Idle),
                TimerAction::Send(p) => r matches Action::Send { pkt } && pkt@ == p,
                TimerAction::TimedOut => r matches Action::Resolve { status } && timed_out_with(
                    status,
                    old(self)@.src_id,
                    Some(old(self)@.router_id),
                    old(self)@.started,
                ),
            },
    {
        if self.stage == OutboundStage::Resolved {
            return Action::Idle;
        }
        match self.timer.fire() {
            Some(PacketRetransmitterEvent::Retransmit { pkt }) => Action::Send { pkt },
            Some(PacketRetransmitterEvent::Timeout) => {
                self.stage = OutboundStage::Resolved;
                let router_id = self.router();
                Action::Resolve {
                    status: PendingSsu2SessionStatus::Timeout {
                        connection_id: self.src_id,
                        router_id,
                        started: self.started,
                    },
                }
            },
            None => Action::Idle,
        }
    }

    /// The socket was closed: a pending handshake resolves to `SocketClosed`.
    pub fn close<C, A>(&mut self) -> (r: Action<C, A>)
        requires
            old(self).wf(),
        ensures
            final(self).wf(),
            final(self)@ == (OutboundModel { stage: OutboundStage::Resolved, ..old(self)@ }),
            old(self)@.stage != OutboundStage::Resolved ==> r == (Action::<C, A>::Resolve {
                status: PendingSsu2SessionStatus::SocketClosed { started: old(self)@.started },
            }),
            old(self)@.stage == OutboundStage::Resolved ==> (r is Idle),
    {
        if self.stage == OutboundStage::Resolved {
            return Action::Idle;
        }
        self.stage = OutboundStage::Resolved;
        Action::Resolve { status: PendingSsu2SessionStatus::SocketClosed { started: self.started } }
    }
}

/// A pending outbound handshake whose armed schedule holds `N` queued delays
/// and gets no answer: `N + 1 + extra` timer firings retransmit its last
/// message `N` times, then time out, then ask for nothing more.
pub proof fn lemma_outbound_unanswered_times_out(m: OutboundModel, extra: nat)
    requires
        m.stage != OutboundStage::Resolved,
        m.timer.timer is Some,
    ensures
        outbound_timer_run(m, m.timer.timeouts.len() + 1 + extra) == exhausted_actions(
            m.timer.pkt,
            m.timer.timeouts.len(),
            extra,
        ),
    decreases m.timer.timeouts.len(),
{
    let n = m.timer.timeouts.len();
    let (next, act) = outbound_timer_step(m);
    if n == 0 {
        lemma_outbound_resolved_is_idle(next, extra);
        assert(outbound_timer_run(m, 1 + extra) =~= seq![act] + outbound_timer_run(next, extra));
        assert(outbound_timer_run(m, 1 + extra) =~= exhausted_actions(m.timer.pkt, 0, extra));
    } else {
        lemma_outbound_unanswered_times_out(next, extra);
        assert(next.timer.timeouts.len() == n - 1);
        assert(outbound_timer_run(m, n + 1 + extra) =~= seq![act] + outbound_timer_run(
            next,
            next.timer.timeouts.len() + 1 + extra,
        ));
        assert(outbound_timer_run(m, n + 1 + extra) =~= exhausted_actions(m.timer.pkt, n, extra));
    }
}

/// A resolved outbound handshake asks for nothing when its timer fires.
pub proof fn lemma_outbound_resolved_is_idle(m: OutboundModel, n: nat)
    requires
        m.stage == OutboundStage::Resolved,
    ensures
        outbound_timer_run(m, n) == Seq::new(n, |i: int| TimerAction::Idle),
    decreases n,
{
    if n > 0 {
        lemma_outbound_resolved_is_idle(m, (n - 1) as nat);
    }
    assert(outbound_timer_run(m, n) =~= Seq::new(n, |i: int| TimerAction::Idle));
}

/// A `SessionRequest` that gets no `SessionCreated`: three retransmits, then a timeout.
pub proof fn lemma_request_without_response_times_out(
    src_id: u64,
    router_id: Seq<u8>,
    started: u64,
    request: Seq<u8>,
)
    ensures
        outbound_timer_run(
            OutboundModel {
                src_id,
                router_id,
                started,
                stage: OutboundStage::AwaitingResponse,
                timer: session_request_schedule(request),
            },
            4,
        ) == seq![
            TimerAction::Send(request),
            TimerAction::Send(request),
            TimerAction::Send(request),
            TimerAction::TimedOut,
        ],
{
    let m = OutboundModel {
        src_id,
        router_id,
        started,
        stage: OutboundStage::AwaitingResponse,
        timer: session_request_schedule(request),
    };
    lemma_outbound_unanswered_times_out(m, 0);
    assert(exhausted_actions(request, 3, 0) =~= seq![
        TimerAction::Send(request),
        TimerAction::Send(request),
        TimerAction::Send(request),
        TimerAction::TimedOut,
    ]);
}

/// A `SessionConfirmed` that gets no `Data` packet: three retransmits, then a
/// timeout, never an established session.
pub proof fn lemma_confirmation_without_data_times_out(
    src_id: u64,
    router_id: Seq<u8>,
    started: u64,
    confirmation: Seq<u8>,
)
    ensures
        outbound_timer_run(
            OutboundModel {
                src_id,
                router_id,
                started,
                stage: OutboundStage::AwaitingFirstData,
                timer: session_request_schedule(confirmation),
            },
            4,
        ) == seq![
            TimerAction::Send(confirmation),
            TimerAction::Send(confirmation),
            TimerAction::Send(confirmation),
            TimerAction::TimedOut,
        ],
{
    let m = OutboundModel {
        src_id,
        router_id,
        started,
        stage: OutboundStage::AwaitingFirstData,
        timer: session_request_schedule(confirmation),
    };
    lemma_outbound_unanswered_times_out(m, 0);
    assert(exhausted_actions(confirmation, 3, 0) =~= seq![
        TimerAction::Send(confirmation),
        TimerAction::Send(confirmation),
        TimerAction::Send(confirmation),
        TimerAction::TimedOut,
    ]);
}

} // verus!

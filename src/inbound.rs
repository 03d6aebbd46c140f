//! Inbound handshake: the local router is the responder.
//!
//! The session awaits an initiation (`TokenRequest` or `SessionRequest`). The
//! handshake layer either rejects it, answers it with a `Retry` that carries a
//! token, or accepts it and answers with `SessionCreated`. After a `Retry` the
//! session waits a bounded time for a new initiation; after `SessionCreated` it
//! awaits `SessionConfirmed`, whose acceptance establishes the session.
use crate::retransmit::{
    inactive_schedule, session_created_schedule, step, EventModel, PacketRetransmitter,
    PacketRetransmitterEvent, RetransmitModel,
};
use crate::status::{timed_out_with, terminated_with, Action, PendingSsu2SessionStatus};
use vstd::prelude::*;

verus! {

/// Stage of an inbound handshake.
#[derive(Clone, Copy, Debug, PartialEq, Eq, Structural)]
pub enum InboundStage {
    /// Nothing has been accepted yet.
    AwaitingInitiation,
    /// A `Retry` was sent; a new initiation is awaited.
    RetrySent,
    /// `SessionCreated` was sent; `SessionConfirmed` is awaited.
    AwaitingConfirmation,
    /// An outcome has been reported.
    Resolved,
}

/// The handshake layer's verdict on an initiation message.
pub enum InitiationVerdict {
    /// The message failed validation.
    Invalid,
    /// The peer must prove its address: send `pkt`, a `Retry`.
    Retry { pkt: Vec<u8> },
    /// The message is valid: send `pkt`, a `SessionCreated`.
    Accepted { pkt: Vec<u8> },
}

/// The handshake layer's verdict on `SessionConfirmed`.
pub enum ConfirmationVerdict<C> {
    /// The message failed validation.
    Invalid,
    /// The message is valid: `context` is that of the active session and `ack`
    /// acknowledges the confirmation.
    Accepted { context: C, ack: Vec<u8> },
}

/// Mathematical form of an inbound handshake.
pub struct InboundModel<A> {
    pub dst_id: u64,
    pub started: u64,
    pub target: A,
    pub retry_timeout: u64,
    pub stage: InboundStage,
    pub timer: Option<RetransmitModel>,
}

/// Mathematical form of an optional automaton.
pub open spec fn timer_view(t: Option<PacketRetransmitter>) -> Option<RetransmitModel> {
    match t {
        Some(r) => Some(r@),
        None => None,
    }
}

/// The stage awaits a message with a timer armed.
pub open spec fn is_waiting(stage: InboundStage) -> bool {
    stage == InboundStage::RetrySent || stage == InboundStage::AwaitingConfirmation
}

/// Pending inbound session.
pub struct InboundHandshake<A> {
    dst_id: u64,
    started: u64,
    target: A,
    retry_timeout: u64,
    stage: InboundStage,
    timer: Option<PacketRetransmitter>,
}

impl<A> View for InboundHandshake<A> {
    type V = InboundModel<A>;

    closed spec fn view(&self) -> InboundModel<A> {
        InboundModel {
            dst_id: self.dst_id,
            started: self.started,
            target: self.target,
            retry_timeout: self.retry_timeout,
            stage: self.stage,
            timer: timer_view(self.timer),
        }
    }
}

impl<A: Copy> InboundHandshake<A> {
    /// A timer is armed exactly while a message is awaited after a reply.
    pub open spec fn wf(&self) -> bool {
        if is_waiting(self@.stage) {
            self@.timer matches Some(t) && t.timer is Some
        } else {
            self@.timer is None
        }
    }

    /// Session `dst_id` with the router at `target`, started at `started`;
    /// after a `Retry` a new initiation is awaited `retry_timeout` milliseconds.
    pub fn new(dst_id: u64, started: u64, target: A, retry_timeout: u64) -> (r: Self)
        ensures
            r@ == (InboundModel {
                dst_id,
                started,
                target,
                retry_timeout,
                stage: InboundStage::AwaitingInitiation,
                timer: None,
            }),
            r.wf(),
    {
        InboundHandshake {
            dst_id,
            started,
            target,
            retry_timeout,
            stage: InboundStage::AwaitingInitiation,
            timer: None,
        }
    }

    /// Stage of the handshake.
    pub fn stage(&self) -> (r: InboundStage)
        ensures
            r == self@.stage,
    {
        self.stage
    }

    /// Destination connection ID.
    pub fn dst_id(&self) -> (r: u64)
        ensures
            r == self@.dst_id,
    {
        self.dst_id
    }

    /// An initiation arrived. While one is awaited, an invalid one terminates
    /// the session, an accepted one is answered with `SessionCreated` under its
    /// schedule, and a `Retry` is sent (first initiation only) under the
    /// `inactive` schedule. Otherwise nothing changes.
    pub fn on_initiation<C>(&mut self, verdict: InitiationVerdict) -> (r: Action<C, A>)
        requires
            old(self).wf(),
        ensures
            final(self).wf(),
            old(self)@.stage == InboundStage::AwaitingInitiation || old(self)@.stage
                == InboundStage::RetrySent ==> match verdict {
                InitiationVerdict::Invalid => final(self)@ == (InboundModel {
                    stage: InboundStage::Resolved,
                    timer: None,
                    ..old(self)@
                }) && (r matches Action::Resolve { status } && terminated_with(
                    status,
                    old(self)@.dst_id,
                    None,
                    old(self)@.started,
                )),
                InitiationVerdict::Retry { pkt } => if old(self)@.stage
                    == InboundStage::AwaitingInitiation {
                    final(self)@ == (InboundModel {
                        stage: InboundStage::RetrySent,
                        timer: Some(inactive_schedule(old(self)@.retry_timeout)),
                        ..old(self)@
                    }) && (r matches Action::Send { pkt: p } && p@ == pkt@)
                } else {
                    final(self)@ == old(self)@ && (r is Idle)
                },
                InitiationVerdict::Accepted { pkt } => final(self)@ == (InboundModel {
                    stage: InboundStage::AwaitingConfirmation,
                    timer: Some(session_created_schedule(pkt@)),
                    ..old(self)@
                }) && (r matches Action::Send { pkt: p } && p@ == pkt@),
            },
            old(self)@.stage == InboundStage::AwaitingConfirmation || old(self)@.stage
                == InboundStage::Resolved ==> final(self)@ == old(self)@ && (r is Idle),
    {
        if self.stage != InboundStage::AwaitingInitiation && self.stage != InboundStage::RetrySent {
            return Action::Idle;
        }
        match verdict {
            InitiationVerdict::Invalid => {
                self.stage = InboundStage::Resolved;
                self.timer = None;
                Action::Resolve {
                    status: PendingSsu2SessionStatus::SessionTerminated {
                        connection_id: self.dst_id,
                        router_id: None,
                        started: self.started,
                    },
                }
            },
            InitiationVerdict::Retry { pkt } => {
                if self.stage != InboundStage::AwaitingInitiation {
                    return Action::Idle;
                }
                self.stage = InboundStage::RetrySent;
                self.timer = Some(PacketRetransmitter::inactive(self.retry_timeout));
                Action::Send { pkt }
            },
            InitiationVerdict::Accepted { pkt } => {
                let out = pkt.clone();
                proof {
                    assert(out@ =~= pkt@);
                }
                self.stage = InboundStage::AwaitingConfirmation;
                self.timer = Some(PacketRetransmitter::session_created(pkt));
                Action::Send { pkt: out }
            },
        }
    }

    /// `SessionConfirmed` arrived. While it is awaited, a valid one establishes
    /// the session and an invalid one terminates it. Otherwise nothing changes.
    pub fn on_confirmation<C>(&mut self, verdict: ConfirmationVerdict<C>) -> (r: Action<C, A>)
        requires
            old(self).wf(),
        ensures
            final(self).wf(),
            old(self)@.stage == InboundStage::AwaitingConfirmation ==> final(self)@ == (InboundModel {
                stage: InboundStage::Resolved,
                timer: None,
                ..old(self)@
            }) && match verdict {
                ConfirmationVerdict::Invalid => r matches Action::Resolve { status }
                    && terminated_with(status, old(self)@.dst_id, None, old(self)@.started),
                ConfirmationVerdict::Accepted { context, ack } => r == (Action::<C, A>::Resolve {
                    status: PendingSsu2SessionStatus::NewInboundSession {
                        context,
                        dst_id: old(self)@.dst_id,
                        pkt: ack,
                        started: old(self)@.started,
                        target: old(self)@.target,
                    },
                }),
            },
            old(self)@.stage != InboundStage::AwaitingConfirmation ==> final(self)@ == old(self)@
                && (r is Idle),
    {
        if self.stage != InboundStage::AwaitingConfirmation {
            return Action::Idle;
        }
        self.stage = InboundStage::Resolved;
        self.timer = None;
        match verdict {
            ConfirmationVerdict::Invalid => Action::Resolve {
                status: PendingSsu2SessionStatus::SessionTerminated {
                    connection_id: self.dst_id,
                    router_id: None,
                    started: self.started,
                },
            },
            ConfirmationVerdict::Accepted { context, ack } => Action::Resolve {
                status: PendingSsu2SessionStatus::NewInboundSession {
                    context,
                    dst_id: self.dst_id,
                    pkt: ack,
                    started: self.started,
                    target: self.target,
                },
            },
        }
    }

    /// The armed timer elapsed: retransmit the last reply, or report a timeout
    /// when its schedule is exhausted. Without an armed timer nothing changes.
    pub fn on_timer<C>(&mut self) -> (r: Action<C, A>)
        requires
            old(self).wf(),
        ensures
            final(self).wf(),
            is_waiting(old(self)@.stage) ==> (old(self)@.timer matches Some(t) && match step(t).1 {
                Some(EventModel::Retransmit(p)) => final(self)@ == (InboundModel {
                    timer: Some(step(t).0),
                    ..old(self)@
                }) && (r matches Action::Send { pkt } && pkt@ == p),
                Some(EventModel::Timeout) => final(self)@ == (InboundModel {
                    stage: InboundStage::Resolved,
                    timer: None,
                    ..old(self)@
                }) && (r matches Action::Resolve { status } && timed_out_with(
                    status,
                    old(self)@.dst_id,
                    None,
                    old(self)@.started,
                )),
                None => false,
            }),
            !is_waiting(old(self)@.stage) ==> final(self)@ == old(self)@ && (r is Idle),
    {
        if self.stage != InboundStage::RetrySent && self.stage != InboundStage::AwaitingConfirmation {
            return Action::Idle;
        }
        let mut timer = match self.timer.take() {
            Some(t) => t,
            None => return Action::Idle,
        };
        match timer.fire() {
            Some(PacketRetransmitterEvent::Retransmit { pkt }) => {
                self.timer = Some(timer);
                Action::Send { pkt }
            },
            Some(PacketRetransmitterEvent::Timeout) => {
                self.stage = InboundStage::Resolved;
                Action::Resolve {
                    status: PendingSsu2SessionStatus::Timeout {
                        connection_id: self.dst_id,
                        router_id: None,
                        started: self.started,
                    },
                }
            },
            None => {
                self.timer = Some(timer);
                Action::Idle
            },
        }
    }

    /// The socket was closed: a pending handshake resolves to `SocketClosed`.
    pub fn close<C>(&mut self) -> (r: Action<C, A>)
        requires
            old(self).wf(),
        ensures
            final(self).wf(),
            final(self)@ == (InboundModel {
                stage: InboundStage::Resolved,
                timer: None,
                ..old(self)@
            }),
            old(self)@.stage != InboundStage::Resolved ==> r == (Action::<C, A>::Resolve {
                status: PendingSsu2SessionStatus::SocketClosed { started: old(self)@.started },
            }),
            old(self)@.stage == InboundStage::Resolved ==> (r is Idle),
    {
        if self.stage == InboundStage::Resolved {
            return Action::Idle;
        }
        self.stage = InboundStage::Resolved;
        self.timer = None;
        Action::Resolve { status: PendingSsu2SessionStatus::SocketClosed { started: self.started } }
    }
}

} // verus!

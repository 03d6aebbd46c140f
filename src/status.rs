//! Terminal outcomes of a pending session, and what a step of a pending
//! session asks of its owner.
//!
//! `C` is the active-session context that the handshake layer derives, `A`
//! the address of the remote router; both are carried unchanged. Times are
//! milliseconds on the owner's clock.
use vstd::prelude::*;

verus! {

/// Status returned by a pending session to the socket.
pub enum PendingSsu2SessionStatus<C, A> {
    /// New inbound session has been opened.
    NewInboundSession {
        /// Context for the active session.
        context: C,
        /// Destination connection ID.
        dst_id: u64,
        /// ACK for `SessionConfirmed`.
        pkt: Vec<u8>,
        /// When the handshake was started.
        started: u64,
        /// Address of the remote router.
        target: A,
    },
    /// New outbound session.
    NewOutboundSession {
        /// Context for the active session.
        context: C,
        /// Source connection ID.
        src_id: u64,
        /// When the handshake was started.
        started: u64,
    },
    /// Pending session terminated due to a fatal error, e.g., a decryption error.
    SessionTerminated {
        /// Destination (inbound) or source (outbound) connection ID.
        connection_id: u64,
        /// ID of the remote router, `None` while it is not known.
        router_id: Option<Vec<u8>>,
        /// When the handshake was started.
        started: u64,
    },
    /// Pending session terminated due to a timeout.
    Timeout {
        /// Destination (inbound) or source (outbound) connection ID.
        connection_id: u64,
        /// ID of the remote router, `None` while it is not known.
        router_id: Option<Vec<u8>>,
        /// When the handshake was started.
        started: u64,
    },
    /// The socket has been closed.
    SocketClosed {
        /// When the handshake was started.
        started: u64,
    },
}

/// Elapsed time from `started` to `now`, zero if the clock reads earlier.
pub open spec fn elapsed(started: u64, now: u64) -> nat {
    if now >= started {
        (now - started) as nat
    } else {
        0
    }
}

impl<C, A> PendingSsu2SessionStatus<C, A> {
    /// When the handshake was started.
    pub open spec fn started_at(&self) -> u64 {
        match self {
            PendingSsu2SessionStatus::NewInboundSession { started, .. } => *started,
            PendingSsu2SessionStatus::NewOutboundSession { started, .. } => *started,
            PendingSsu2SessionStatus::SessionTerminated { started, .. } => *started,
            PendingSsu2SessionStatus::Timeout { started, .. } => *started,
            PendingSsu2SessionStatus::SocketClosed { started } => *started,
        }
    }

    /// When the handshake was started.
    pub fn started(&self) -> (r: u64)
        ensures
            r == self.started_at(),
    {
        match self {
            PendingSsu2SessionStatus::NewInboundSession { started, .. } => *started,
            PendingSsu2SessionStatus::NewOutboundSession { started, .. } => *started,
            PendingSsu2SessionStatus::SessionTerminated { started, .. } => *started,
            PendingSsu2SessionStatus::Timeout { started, .. } => *started,
            PendingSsu2SessionStatus::SocketClosed { started } => *started,
        }
    }

    /// Duration of the handshake in milliseconds, `now` being the current time.
    pub fn duration(&self, now: u64) -> (r: u64)
        ensures
            r == elapsed(self.started_at(), now),
    {
        let started = self.started();
        if now >= started {
            now - started
        } else {
            0
        }
    }
}

/// Mathematical form of an optional router ID.
pub open spec fn router_view(r: Option<Vec<u8>>) -> Option<Seq<u8>> {
    match r {
        Some(v) => Some(v@),
        None => None,
    }
}

/// `s` is a termination of the session `connection` with `router`, started at `started`.
pub open spec fn terminated_with<C, A>(
    s: PendingSsu2SessionStatus<C, A>,
    connection: u64,
    router: Option<Seq<u8>>,
    started: u64,
) -> bool {
    match s {
        PendingSsu2SessionStatus::SessionTerminated { connection_id, router_id, started: st } => {
            connection_id == connection && router_view(router_id) == router && st == started
        },
        _ => false,
    }
}

/// `s` is a timeout of the session `connection` with `router`, started at `started`.
pub open spec fn timed_out_with<C, A>(
    s: PendingSsu2SessionStatus<C, A>,
    connection: u64,
    router: Option<Seq<u8>>,
    started: u64,
) -> bool {
    match s {
        PendingSsu2SessionStatus::Timeout { connection_id, router_id, started: st } => {
            connection_id == connection && router_view(router_id) == router && st == started
        },
        _ => false,
    }
}

/// What one timer firing of a pending session asks for.
pub enum TimerAction {
    Idle,
    Send(Seq<u8>),
    TimedOut,
}

/// What the owner of a pending session is asked to do after one step.
pub enum Action<C, A> {
    /// Nothing.
    Idle,
    /// Send `pkt` to the remote router.
    Send { pkt: Vec<u8> },
    /// The session is over; the owner retires it.
    Resolve { status: PendingSsu2SessionStatus<C, A> },
}

} // verus!

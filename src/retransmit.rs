//! Retransmission automaton for handshake packets.
//!
//! The automaton holds a packet, the delays still queued and the delay of the
//! timer that is armed. The owner runs the timer and calls [`PacketRetransmitter::fire`]
//! (or [`PacketRetransmitter::tick`]) when it elapses; delays are in milliseconds.
use std::collections::VecDeque;
use vstd::prelude::*;

verus! {

/// Delay before the first `TokenRequest` retransmit.
pub const TOKEN_REQUEST_INITIAL_MS: u64 = 3000;

/// Delay between `TokenRequest` retransmits, and before its timeout.
pub const TOKEN_REQUEST_RETRY_MS: u64 = 6000;

/// Delay before the first `SessionRequest`/`SessionConfirmed` retransmit.
pub const SESSION_REQUEST_INITIAL_MS: u64 = 1250;

/// Delays queued after the first `SessionRequest`/`SessionConfirmed` retransmit.
pub const SESSION_REQUEST_SECOND_MS: u64 = 2500;
pub const SESSION_REQUEST_THIRD_MS: u64 = 5000;
pub const SESSION_REQUEST_LAST_MS: u64 = 6250;

/// Delays of the `SessionCreated` schedule.
pub const SESSION_CREATED_INITIAL_MS: u64 = 1000;
pub const SESSION_CREATED_SECOND_MS: u64 = 2000;
pub const SESSION_CREATED_THIRD_MS: u64 = 4000;
pub const SESSION_CREATED_LAST_MS: u64 = 5000;

/// Event produced when the retransmission timer fires.
#[derive(Debug)]
pub enum PacketRetransmitterEvent {
    /// Send the stored packet again.
    Retransmit {
        /// Packet that needs to be retransmitted.
        pkt: Vec<u8>,
    },
    /// The schedule is exhausted.
    Timeout,
}

/// Mathematical form of an event.
pub enum EventModel {
    Retransmit(Seq<u8>),
    Timeout,
}

impl View for PacketRetransmitterEvent {
    type V = EventModel;

    open spec fn view(&self) -> EventModel {
        match self {
            PacketRetransmitterEvent::Retransmit { pkt } => EventModel::Retransmit(pkt@),
            PacketRetransmitterEvent::Timeout => EventModel::Timeout,
        }
    }
}

/// Mathematical form of an optional event.
pub open spec fn event_view(e: Option<PacketRetransmitterEvent>) -> Option<EventModel> {
    match e {
        Some(ev) => Some(ev@),
        None => None,
    }
}

/// Mathematical form of an automaton: the packet, the queued delays (front
/// first) and the delay of the armed timer, `None` once the automaton is spent.
pub struct RetransmitModel {
    pub pkt: Seq<u8>,
    pub timeouts: Seq<u64>,
    pub timer: Option<u64>,
}

/// One firing of the timer: the next state and the event, if any.
pub open spec fn step(m: RetransmitModel) -> (RetransmitModel, Option<EventModel>) {
    match m.timer {
        None => (m, None),
        Some(_) => if m.timeouts.len() > 0 {
            (
                RetransmitModel {
                    pkt: m.pkt,
                    timeouts: m.timeouts.drop_first(),
                    timer: Some(m.timeouts[0]),
                },
                Some(EventModel::Retransmit(m.pkt)),
            )
        } else {
            (RetransmitModel { pkt: m.pkt, timeouts: m.timeouts, timer: None }, Some(EventModel::Timeout))
        },
    }
}

/// The events of `n` successive firings, starting in `m`.
pub open spec fn run(m: RetransmitModel, n: nat) -> Seq<Option<EventModel>>
    decreases n,
{
    if n == 0 {
        Seq::empty()
    } else {
        seq![step(m).1] + run(step(m).0, (n - 1) as nat)
    }
}

/// The events promised for an armed automaton: a retransmit of the stored
/// packet for each queued delay, one timeout, then nothing for `extra` more firings.
pub open spec fn schedule_events(pkt: Seq<u8>, retransmits: nat, extra: nat) -> Seq<Option<EventModel>> {
    Seq::new(retransmits, |i: int| Some(EventModel::Retransmit(pkt)))
        + seq![Some(EventModel::Timeout)]
        + Seq::new(extra, |i: int| None::<EventModel>)
}

/// Schedule of `inactive(timeout)`: a timeout after `timeout`, no retransmit.
pub open spec fn inactive_schedule(timeout: u64) -> RetransmitModel {
    RetransmitModel { pkt: Seq::empty(), timeouts: Seq::empty(), timer: Some(timeout) }
}

/// Schedule of `TokenRequest`.
pub open spec fn token_request_schedule(pkt: Seq<u8>) -> RetransmitModel {
    RetransmitModel {
        pkt,
        timeouts: seq![TOKEN_REQUEST_RETRY_MS, TOKEN_REQUEST_RETRY_MS],
        timer: Some(TOKEN_REQUEST_INITIAL_MS),
    }
}

/// Schedule of `SessionRequest`, and of `SessionConfirmed`.
pub open spec fn session_request_schedule(pkt: Seq<u8>) -> RetransmitModel {
    RetransmitModel {
        pkt,
        timeouts: seq![SESSION_REQUEST_SECOND_MS, SESSION_REQUEST_THIRD_MS, SESSION_REQUEST_LAST_MS],
        timer: Some(SESSION_REQUEST_INITIAL_MS),
    }
}

/// Schedule of `SessionCreated`.
pub open spec fn session_created_schedule(pkt: Seq<u8>) -> RetransmitModel {
    RetransmitModel {
        pkt,
        timeouts: seq![SESSION_CREATED_SECOND_MS, SESSION_CREATED_THIRD_MS, SESSION_CREATED_LAST_MS],
        timer: Some(SESSION_CREATED_INITIAL_MS),
    }
}

/// Packet retransmitter.
pub struct PacketRetransmitter {
    /// Packet that is retransmitted when the timer fires.
    pkt: Vec<u8>,
    /// Delays still queued, front first.
    timeouts: VecDeque<u64>,
    /// Delay of the armed timer; `None` once the automaton timed out.
    timer: Option<u64>,
}

impl View for PacketRetransmitter {
    type V = RetransmitModel;

    closed spec fn view(&self) -> RetransmitModel {
        RetransmitModel { pkt: self.pkt@, timeouts: self.timeouts@, timer: self.timer }
    }
}

impl PacketRetransmitter {
    fn with_schedule(pkt: Vec<u8>, initial: u64, timeouts: VecDeque<u64>) -> (r: Self)
        ensures
            r@ == (RetransmitModel { pkt: pkt@, timeouts: timeouts@, timer: Some(initial) }),
    {
        PacketRetransmitter { pkt, timeouts, timer: Some(initial) }
    }

    /// Create an automaton that only times out, `timeout` milliseconds after it is armed.
    ///
    /// Used by an inbound session that sent a `Retry` and awaits a new request.
    pub fn inactive(timeout: u64) -> (r: Self)
        ensures
            r@ == inactive_schedule(timeout),
    {
        PacketRetransmitter::with_schedule(Vec::new(), timeout, VecDeque::new())
    }

    /// Automaton for `TokenRequest`: retransmits after 3 s and 6 s, times out 6 s later.
    pub fn token_request(pkt: Vec<u8>) -> (r: Self)
        ensures
            r@ == token_request_schedule(pkt@),
    {
        let mut timeouts: VecDeque<u64> = VecDeque::new();
        timeouts.push_back(TOKEN_REQUEST_RETRY_MS);
        timeouts.push_back(TOKEN_REQUEST_RETRY_MS);
        proof {
            assert(timeouts@ =~= seq![TOKEN_REQUEST_RETRY_MS, TOKEN_REQUEST_RETRY_MS]);
        }
        PacketRetransmitter::with_schedule(pkt, TOKEN_REQUEST_INITIAL_MS, timeouts)
    }

    /// Automaton for `SessionRequest`: retransmits after 1.25 s, 2.5 s and 5 s,
    /// times out 6.25 s after the last retransmit.
    pub fn session_request(pkt: Vec<u8>) -> (r: Self)
        ensures
            r@ == session_request_schedule(pkt@),
    {
        let mut timeouts: VecDeque<u64> = VecDeque::new();
        timeouts.push_back(SESSION_REQUEST_SECOND_MS);
        timeouts.push_back(SESSION_REQUEST_THIRD_MS);
        timeouts.push_back(SESSION_REQUEST_LAST_MS);
        proof {
            assert(timeouts@ =~= seq![
                SESSION_REQUEST_SECOND_MS,
                SESSION_REQUEST_THIRD_MS,
                SESSION_REQUEST_LAST_MS,
            ]);
        }
        PacketRetransmitter::with_schedule(pkt, SESSION_REQUEST_INITIAL_MS, timeouts)
    }

    /// Automaton for `SessionCreated`: retransmits after 1 s, 2 s and 4 s,
    /// times out 5 s after the last retransmit.
    pub fn session_created(pkt: Vec<u8>) -> (r: Self)
        ensures
            r@ == session_created_schedule(pkt@),
    {
        let mut timeouts: VecDeque<u64> = VecDeque::new();
        timeouts.push_back(SESSION_CREATED_SECOND_MS);
        timeouts.push_back(SESSION_CREATED_THIRD_MS);
        timeouts.push_back(SESSION_CREATED_LAST_MS);
        proof {
            assert(timeouts@ =~= seq![
                SESSION_CREATED_SECOND_MS,
                SESSION_CREATED_THIRD_MS,
                SESSION_CREATED_LAST_MS,
            ]);
        }
        PacketRetransmitter::with_schedule(pkt, SESSION_CREATED_INITIAL_MS, timeouts)
    }

    /// Automaton for `SessionConfirmed`: the same schedule as `SessionRequest`.
    ///
    /// The answer to `SessionConfirmed` is the first `Data` packet of the peer.
    pub fn session_confirmed(pkt: Vec<u8>) -> (r: Self)
        ensures
            r@ == session_request_schedule(pkt@),
    {
        PacketRetransmitter::session_request(pkt)
    }

    /// Delay of the armed timer, in milliseconds; `None` once timed out.
    pub fn armed_delay(&self) -> (r: Option<u64>)
        ensures
            r == self@.timer,
    {
        self.timer
    }

    /// Number of retransmits still queued.
    pub fn remaining_retransmits(&self) -> (r: usize)
        ensures
            r == self@.timeouts.len(),
    {
        self.timeouts.len()
    }

    /// The armed timer has elapsed: re-arm with the next queued delay and ask for
    /// a retransmit, or time out when the queue is empty. A spent automaton
    /// produces nothing.
    pub fn fire(&mut self) -> (r: Option<PacketRetransmitterEvent>)
        ensures
            final(self)@ == step(old(self)@).0,
            event_view(r) == step(old(self)@).1,
    {
        if self.timer.is_none() {
            return None;
        }
        match self.timeouts.pop_front() {
            Some(timeout) => {
                self.timer = Some(timeout);
                let pkt = self.pkt.clone();
                proof {
                    assert(pkt@ =~= self.pkt@);
                }
                Some(PacketRetransmitterEvent::Retransmit { pkt })
            },
            None => {
                self.timer = None;
                Some(PacketRetransmitterEvent::Timeout)
            },
        }
    }

    /// `elapsed` milliseconds have passed since the timer was armed: fire if
    /// the armed delay is reached, else change nothing.
    pub fn tick(&mut self, elapsed: u64) -> (r: Option<PacketRetransmitterEvent>)
        ensures
            match old(self)@.timer {
                Some(d) if elapsed >= d => final(self)@ == step(old(self)@).0 && event_view(r) == step(
                    old(self)@,
                ).1,
                _ => final(self)@ == old(self)@ && r.is_none(),
            },
    {
        match self.timer {
            Some(d) => {
                if elapsed >= d {
                    self.fire()
                } else {
                    None
                }
            },
            None => None,
        }
    }
}

/// An armed automaton with `N` queued delays, fired `N + 1 + extra` times,
/// asks for `N` retransmits of its packet unchanged, then times out once, then
/// produces nothing more.
pub proof fn lemma_schedule_exhausts(m: RetransmitModel, extra: nat)
    requires
        m.timer is Some,
    ensures
        run(m, m.timeouts.len() + 1 + extra) == schedule_events(m.pkt, m.timeouts.len(), extra),
    decreases m.timeouts.len(),
{
    let n = m.timeouts.len();
    let (next, ev) = step(m);
    if n == 0 {
        lemma_spent_is_silent(next, extra);
        assert(run(m, 1 + extra) =~= seq![ev] + run(next, extra));
        assert(run(m, 1 + extra) =~= schedule_events(m.pkt, 0, extra));
    } else {
        lemma_schedule_exhausts(next, extra);
        assert(next.timeouts.len() == n - 1);
        assert(run(m, n + 1 + extra) =~= seq![ev] + run(next, next.timeouts.len() + 1 + extra));
        assert(run(m, n + 1 + extra) =~= schedule_events(m.pkt, n, extra));
    }
}

/// A spent automaton produces nothing, however often it fires.
pub proof fn lemma_spent_is_silent(m: RetransmitModel, n: nat)
    requires
        m.timer is None,
    ensures
        run(m, n) == Seq::new(n, |i: int| None::<EventModel>),
    decreases n,
{
    if n > 0 {
        lemma_spent_is_silent(m, (n - 1) as nat);
        assert(run(m, n) =~= Seq::new(n, |i: int| None::<EventModel>));
    } else {
        assert(run(m, n) =~= Seq::new(n, |i: int| None::<EventModel>));
    }
}

/// `inactive(d)` times out at its first firing and never asks for a retransmit.
pub proof fn lemma_inactive_times_out_once(d: u64, extra: nat)
    ensures
        run(inactive_schedule(d), 1 + extra) == seq![Some(EventModel::Timeout)] + Seq::new(
            extra,
            |i: int| None::<EventModel>,
        ),
{
    let m = RetransmitModel { pkt: Seq::empty(), timeouts: Seq::empty(), timer: Some(d) };
    lemma_schedule_exhausts(m, extra);
    assert(schedule_events(m.pkt, 0, extra) =~= seq![Some(EventModel::Timeout)] + Seq::new(
        extra,
        |i: int| None::<EventModel>,
    ));
}

/// Each preset that carries a packet retransmits it once per queued delay,
/// then times out, then produces nothing more.
pub proof fn lemma_presets_exhaust(pkt: Seq<u8>, extra: nat)
    ensures
        run(token_request_schedule(pkt), 3 + extra) == schedule_events(pkt, 2, extra),
        run(session_request_schedule(pkt), 4 + extra) == schedule_events(pkt, 3, extra),
        run(session_created_schedule(pkt), 4 + extra) == schedule_events(pkt, 3, extra),
{
    lemma_schedule_exhausts(token_request_schedule(pkt), extra);
    lemma_schedule_exhausts(session_request_schedule(pkt), extra);
    lemma_schedule_exhausts(session_created_schedule(pkt), extra);
}

} // verus!

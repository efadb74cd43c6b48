//! The retry engine's decisions, as a state machine over plain events. The
//! caller owns the socket and the clock; it reports each outcome of a wait
//! (a datagram with its sender, an elapsed window, a transport failure) and
//! performs the action decided here. One transaction sends identical bytes on
//! every attempt, waits `1000 * 2^k` milliseconds on attempt `k`, discards
//! datagrams from foreign senders without touching the running window, and
//! gives up after the configured number of attempts.

use vstd::prelude::*;

verus! {

use vstd::arithmetic::power2::lemma2_to64;
use vstd::arithmetic::power2::lemma2_to64_rest;
use vstd::arithmetic::power2::lemma_pow2_strictly_increases;
use vstd::arithmetic::power2::lemma_pow2_unfold;
use vstd::arithmetic::power2::pow2;

/// How many attempts a transaction makes unless configured otherwise.
pub const DEFAULT_MAX_ATTEMPTS: u32 = 5;

/// The fixed guard timeout, in milliseconds, that the caller should put on
/// each send: a datagram send should never legitimately block this long.
pub const SEND_GUARD_MS: u64 = 1000;

/// How long a transaction waits on attempt `k`, in milliseconds.
pub open spec fn backoff_ms(k: int) -> int {
    1000 * pow2(k as nat) as int
}

/// Why a transaction ended without a delivered response.
#[derive(Clone, Copy, Debug, PartialEq, Eq)]
pub enum EngineError {
    /// Every attempt's window elapsed without a datagram from the
    /// destination.
    TimedOut,
    /// The socket reported a failure other than a timeout.
    Transport,
}

/// Where a transaction stands.
#[derive(Clone, Copy, Debug)]
pub enum Phase {
    /// An attempt is outstanding: the request was sent and a window is open.
    Waiting,
    /// A datagram from the destination was handed to the caller.
    Delivered,
    /// The transaction ended without a response.
    Failed { error: EngineError },
}

/// One outcome of waiting on the open window, reported by the caller.
#[derive(Debug)]
pub enum Event {
    /// A datagram arrived before the window elapsed; `sender` is the textual
    /// form of its source address, `data` its payload.
    Datagram { sender: String, data: Vec<u8> },
    /// The window elapsed with no datagram.
    WindowElapsed,
    /// The socket failed for a reason other than a timeout.
    TransportFailed,
}

/// The mathematical value of an `Event`.
pub enum EventModel {
    Datagram { sender: Seq<char>, data: Seq<u8> },
    WindowElapsed,
    TransportFailed,
}

impl View for Event {
    type V = EventModel;

    open spec fn view(&self) -> EventModel {
        match self {
            Event::Datagram { sender, data } => (EventModel::Datagram {
                sender: sender@,
                data: data@,
            }),
            Event::WindowElapsed => EventModel::WindowElapsed,
            Event::TransportFailed => EventModel::TransportFailed,
        }
    }
}

/// What the caller must do after an event: resend the request and wait the
/// given window, keep waiting on the running window, consume the delivered
/// payload, or give up.
#[derive(Debug)]
pub enum Action {
    Resend { timeout_ms: u64 },
    KeepWaiting,
    Deliver { data: Vec<u8> },
    Fail { error: EngineError },
}

/// The mathematical value of an `Action`.
pub enum ActionModel {
    Resend { timeout_ms: int },
    KeepWaiting,
    Deliver { data: Seq<u8> },
    Fail { error: EngineError },
}

impl View for Action {
    type V = ActionModel;

    open spec fn view(&self) -> ActionModel {
        match self {
            Action::Resend { timeout_ms } => (ActionModel::Resend {
                timeout_ms: *timeout_ms as int,
            }),
            Action::KeepWaiting => ActionModel::KeepWaiting,
            Action::Deliver { data } => (ActionModel::Deliver { data: data@ }),
            Action::Fail { error } => (ActionModel::Fail { error: *error }),
        }
    }
}

/// The mathematical state of a transaction.
pub struct TransactionModel {
    pub request: Seq<u8>,
    pub dest: Seq<char>,
    pub attempt: int,
    pub max_attempts: int,
    pub phase: Phase,
}

impl TransactionModel {
    /// Well-formedness: the attempt counter stays under the ceiling while
    /// waiting, and the ceiling is positive and small enough that every
    /// window fits in a `u64` of milliseconds.
    pub open spec fn wf(self) -> bool {
        &&& 1 <= self.max_attempts <= 54
        &&& 0 <= self.attempt <= self.max_attempts
        &&& (self.phase is Waiting ==> self.attempt < self.max_attempts)
    }
}

/// The state after `event`: a datagram from the destination delivers, one
/// from anywhere else changes nothing, an elapsed window advances the attempt
/// counter or exhausts the transaction, and a transport failure ends it. A
/// finished transaction no longer moves.
pub open spec fn step_model(m: TransactionModel, event: EventModel) -> TransactionModel {
    if !(m.phase is Waiting) {
        m
    } else {
        match event {
            EventModel::Datagram { sender, data } => {
                if sender == m.dest {
                    TransactionModel { phase: Phase::Delivered, ..m }
                } else {
                    m
                }
            },
            EventModel::WindowElapsed => {
                if m.attempt + 1 == m.max_attempts {
                    TransactionModel { phase: Phase::Failed { error: EngineError::TimedOut }, ..m }
                } else {
                    TransactionModel { attempt: m.attempt + 1, ..m }
                }
            },
            EventModel::TransportFailed => (TransactionModel {
                phase: Phase::Failed { error: EngineError::Transport },
                ..m
            }),
        }
    }
}

/// The action decided on `event`, paired with `step_model`. A finished
/// transaction asks for nothing.
pub open spec fn action_model(m: TransactionModel, event: EventModel) -> ActionModel {
    if !(m.phase is Waiting) {
        ActionModel::KeepWaiting
    } else {
        match event {
            EventModel::Datagram { sender, data } => {
                if sender == m.dest {
                    ActionModel::Deliver { data }
                } else {
                    ActionModel::KeepWaiting
                }
            },
            EventModel::WindowElapsed => {
                if m.attempt + 1 == m.max_attempts {
                    ActionModel::Fail { error: EngineError::TimedOut }
                } else {
                    ActionModel::Resend { timeout_ms: backoff_ms(m.attempt + 1) }
                }
            },
            EventModel::TransportFailed => (ActionModel::Fail { error: EngineError::Transport }),
        }
    }
}

/// One STUN binding transaction: the request bytes, the destination they are
/// sent to (in textual form), and the retry state.
#[derive(Debug)]
pub struct Transaction {
    request: Vec<u8>,
    dest: String,
    attempt: u32,
    max_attempts: u32,
    phase: Phase,
}

impl View for Transaction {
    type V = TransactionModel;

    closed spec fn view(&self) -> TransactionModel {
        TransactionModel {
            request: self.request@,
            dest: self.dest@,
            attempt: self.attempt as int,
            max_attempts: self.max_attempts as int,
            phase: self.phase,
        }
    }
}

/// The window for attempt `k`, in milliseconds: `1000 * 2^k`.
#[verifier::loop_isolation(false)]
pub fn backoff_timeout_ms(k: u32) -> (r: u64)
    requires
        k <= 53,
    ensures
        r == backoff_ms(k as int),
{
    proof {
        lemma2_to64();
        lemma2_to64_rest();
    }
    let mut t: u64 = 1000;
    let mut i: u32 = 0;
    while i < k
        invariant
            i <= k <= 53,
            t == 1000 * pow2(i as nat),
        decreases k - i,
    {
        proof {
            lemma_pow2_unfold((i + 1) as nat);
            if ((i + 1) as nat) < 53 {
                lemma_pow2_strictly_increases((i + 1) as nat, 53);
            }
        }
        t = t * 2;
        i = i + 1;
    }
    t
}

impl Transaction {
    /// Opens a transaction: the request bytes that every attempt will send,
    /// the destination they go to, and the attempt ceiling. The first send
    /// and its window belong to attempt 0; the caller performs that send
    /// right away and waits `current_timeout_ms()`.
    pub fn new(request: Vec<u8>, dest: String, max_attempts: u32) -> (t: Transaction)
        requires
            1 <= max_attempts <= 54,
        ensures
            t@ == (TransactionModel {
                request: request@,
                dest: dest@,
                attempt: 0,
                max_attempts: max_attempts as int,
                phase: Phase::Waiting,
            }),
            t@.wf(),
    {
        Transaction { request, dest, attempt: 0, max_attempts, phase: Phase::Waiting }
    }

    /// The bytes every attempt of this transaction sends.
    pub fn request(&self) -> (r: &Vec<u8>)
        ensures
            r@ == self@.request,
    {
        &self.request
    }

    /// Whether the transaction has delivered or failed; `step` may no longer
    /// be called once it has.
    pub fn is_finished(&self) -> (r: bool)
        ensures
            r == !(self@.phase is Waiting),
    {
        match self.phase {
            Phase::Waiting => false,
            Phase::Delivered => true,
            Phase::Failed { .. } => true,
        }
    }

    /// The window of the attempt now outstanding, in milliseconds.
    pub fn current_timeout_ms(&self) -> (r: u64)
        requires
            self@.wf(),
            self@.phase is Waiting,
        ensures
            r == backoff_ms(self@.attempt),
    {
        backoff_timeout_ms(self.attempt)
    }

    /// Feeds one event to the transaction and decides the caller's next
    /// action.
    pub fn step(&mut self, event: Event) -> (action: Action)
        requires
            old(self)@.wf(),
            old(self)@.phase is Waiting,
        ensures
            final(self)@ == step_model(old(self)@, event@),
            final(self)@.wf(),
            action@ == action_model(old(self)@, event@),
    {
        match event {
            Event::Datagram { sender, data } => {
                if sender == self.dest {
                    self.phase = Phase::Delivered;
                    Action::Deliver { data }
                } else {
                    Action::KeepWaiting
                }
            },
            Event::WindowElapsed => {
                if self.attempt + 1 == self.max_attempts {
                    self.phase = Phase::Failed { error: EngineError::TimedOut };
                    Action::Fail { error: EngineError::TimedOut }
                } else {
                    self.attempt = self.attempt + 1;
                    Action::Resend { timeout_ms: backoff_timeout_ms(self.attempt) }
                }
            },
            Event::TransportFailed => {
                self.phase = Phase::Failed { error: EngineError::Transport };
                Action::Fail { error: EngineError::Transport }
            },
        }
    }
}

/// The state after a whole sequence of events, first event first.
pub open spec fn run_model(m: TransactionModel, events: Seq<EventModel>) -> TransactionModel
    decreases events.len(),
{
    if events.len() == 0 {
        m
    } else {
        run_model(step_model(m, events[0]), events.drop_first())
    }
}

/// How many of the decided actions over `events` are resends.
pub open spec fn resend_count(m: TransactionModel, events: Seq<EventModel>) -> int
    decreases events.len(),
{
    if events.len() == 0 {
        0
    } else {
        (if action_model(m, events[0]) is Resend {
            1int
        } else {
            0int
        }) + resend_count(step_model(m, events[0]), events.drop_first())
    }
}

/// Retransmission law: no event sequence changes the request bytes, so every
/// resend of one transaction transmits bytes identical to the first send.
pub proof fn lemma_retransmissions_identical(m: TransactionModel, events: Seq<EventModel>)
    ensures
        run_model(m, events).request == m.request,
    decreases events.len(),
{
    if events.len() > 0 {
        lemma_retransmissions_identical(step_model(m, events[0]), events.drop_first());
    }
}

/// Origin law: a datagram whose sender is not the destination is never
/// delivered and never moves the transaction, whatever its payload holds.
pub proof fn lemma_foreign_sender_never_delivered(
    m: TransactionModel,
    sender: Seq<char>,
    data: Seq<u8>,
)
    requires
        sender != m.dest,
    ensures
        !(action_model(m, EventModel::Datagram { sender, data }) is Deliver),
        step_model(m, EventModel::Datagram { sender, data }) == m,
{
}

/// Whether every event in the sequence is an elapsed window.
pub open spec fn all_windows_elapsed(events: Seq<EventModel>) -> bool {
    forall|i: int| 0 <= i < events.len() ==> events[i] is WindowElapsed
}

/// Exhaustion law: when every remaining window elapses with no datagram, the
/// transaction fails with `TimedOut`, after exactly one resend per elapsed
/// window except the last. With a fresh transaction that makes
/// `max_attempts` transmissions in all: the initial send and
/// `max_attempts - 1` resends.
pub proof fn lemma_exhaustion_times_out(m: TransactionModel, events: Seq<EventModel>)
    requires
        m.wf(),
        m.phase is Waiting,
        all_windows_elapsed(events),
        events.len() == m.max_attempts - m.attempt,
    ensures
        run_model(m, events).phase == (Phase::Failed { error: EngineError::TimedOut }),
        resend_count(m, events) == events.len() - 1,
    decreases events.len(),
{
    let rest = events.drop_first();
    assert(all_windows_elapsed(rest)) by {
        assert(forall|i: int| 0 <= i < rest.len() ==> rest[i] == events[i + 1]);
    }
    assert(events[0] is WindowElapsed);
    let m1 = step_model(m, events[0]);
    if m.attempt + 1 < m.max_attempts {
        lemma_exhaustion_times_out(m1, rest);
    } else {
        assert(events.len() == 1);
        assert(rest.len() == 0);
        assert(run_model(m1, rest) == m1);
        assert(resend_count(m1, rest) == 0);
    }
}

/// Quiescence law: a delivered or failed transaction is not moved by any
/// further event, and no further event decides a resend.
pub proof fn lemma_no_sends_after_finish(m: TransactionModel, events: Seq<EventModel>)
    requires
        !(m.phase is Waiting),
    ensures
        run_model(m, events) == m,
        resend_count(m, events) == 0,
    decreases events.len(),
{
    if events.len() > 0 {
        lemma_no_sends_after_finish(step_model(m, events[0]), events.drop_first());
    }
}

} // verus!

//! The connection supervisor's decisions: the retry/backoff loop over
//! connection attempts, and the per-connection multiplexing of transport
//! events and protocol-engine intents.
//!
//! The supervisor owns the process lifetime. Up to five consecutive failed
//! connection attempts are tolerated; the fifth ends the process. Any
//! successful connection re-arms the budget by resetting the attempt
//! counter. The surrounding process performs the connects, sleeps, writes
//! and thread management that these decisions call for.

use vstd::prelude::*;

use crate::socket::SocketMessage;

verus! {

/// Whether a connection is currently established.
#[derive(Clone, Copy, PartialEq, Eq, Structural, Debug)]
pub enum Status {
    Disconnected,
    Connected,
}

/// What the supervisor's loop does next: sleep and retry the connection,
/// run one session over the established connection, or end the process.
#[derive(Clone, Copy, PartialEq, Eq, Structural, Debug)]
pub enum TickAction {
    RetrySleep,
    RunSession,
    Exit,
}

/// The supervisor's state: the connection status and the count of
/// consecutive failed connection attempts.
#[derive(Clone, Copy, PartialEq, Eq, Structural, Debug)]
pub struct State {
    pub status: Status,
    pub conn_attempts: u32,
}

/// The consecutive-failure budget: the attempt whose count reaches this
/// bound ends the process.
pub open spec fn attempt_cap() -> u32 {
    5
}

/// The state after a connection attempt: a success while disconnected
/// establishes the connection; a failure leaves it down; an attempt is
/// never made while connected.
pub open spec fn connect_next(s: State, ok: bool) -> State {
    if s.status is Connected {
        s
    } else if ok {
        State { status: Status::Connected, ..s }
    } else {
        State { status: Status::Disconnected, ..s }
    }
}

/// The state after one pass of the supervisor loop: while disconnected the
/// attempt count rises (it never passes the budget); once connected it
/// resets to zero.
pub open spec fn tick_next(s: State) -> State {
    match s.status {
        Status::Disconnected => State {
            status: s.status,
            conn_attempts: if s.conn_attempts >= attempt_cap() {
                s.conn_attempts
            } else {
                (s.conn_attempts + 1) as u32
            },
        },
        Status::Connected => State { status: s.status, conn_attempts: 0 },
    }
}

/// What one pass of the supervisor loop decides: while disconnected, retry
/// until the budget is spent, then end the process; once connected, run a
/// session.
pub open spec fn tick_action(s: State) -> TickAction {
    match s.status {
        Status::Disconnected => if s.conn_attempts + 1 >= attempt_cap() {
            TickAction::Exit
        } else {
            TickAction::RetrySleep
        },
        Status::Connected => TickAction::RunSession,
    }
}

impl State {
    /// The state at process start: disconnected, no attempts counted.
    pub fn new() -> (s: State)
        ensures
            s.status is Disconnected,
            s.conn_attempts == 0,
    {
        State { status: Status::Disconnected, conn_attempts: 0 }
    }

    /// Record the outcome of one connection attempt.
    pub fn on_connect_result(&mut self, ok: bool)
        ensures
            *final(self) == connect_next(*old(self), ok),
    {
        if self.status == Status::Disconnected && ok {
            self.status = Status::Connected;
        }
    }

    /// One pass of the supervisor loop: count the attempt or reset the
    /// counter, and decide whether to retry, run a session, or end the
    /// process.
    pub fn tick(&mut self) -> (a: TickAction)
        ensures
            *final(self) == tick_next(*old(self)),
            a == tick_action(*old(self)),
    {
        match self.status {
            Status::Disconnected => {
                if self.conn_attempts < 5 {
                    self.conn_attempts = self.conn_attempts + 1;
                }
                if self.conn_attempts >= 5 {
                    TickAction::Exit
                } else {
                    TickAction::RetrySleep
                }
            },
            Status::Connected => {
                self.conn_attempts = 0;
                TickAction::RunSession
            },
        }
    }

    /// Record how a session ended: an explicit quit ends the process, any
    /// other end returns to the reconnection loop.
    pub fn on_session_end(&mut self, should_exit: bool) -> (exit: bool)
        ensures
            exit == should_exit,
            final(self).conn_attempts == old(self).conn_attempts,
            should_exit ==> final(self).status == old(self).status,
            !should_exit ==> final(self).status is Disconnected,
    {
        if should_exit {
            true
        } else {
            self.status = Status::Disconnected;
            false
        }
    }
}

/// The state after a given number of consecutive failed connection rounds,
/// each a failed attempt followed by one pass of the supervisor loop,
/// starting from the state at process start.
pub open spec fn after_failed_rounds(n: nat) -> State
    decreases n,
{
    if n == 0 {
        State { status: Status::Disconnected, conn_attempts: 0 }
    } else {
        tick_next(connect_next(after_failed_rounds((n - 1) as nat), false))
    }
}

/// Consecutive failures leave the supervisor disconnected and count each
/// attempt, up to the budget.
pub proof fn lemma_failed_rounds_count(n: nat)
    ensures
        after_failed_rounds(n).status is Disconnected,
        after_failed_rounds(n).conn_attempts == if n <= attempt_cap() {
            n as int
        } else {
            attempt_cap() as int
        },
    decreases n,
{
    if n > 0 {
        lemma_failed_rounds_count((n - 1) as nat);
    }
}

/// The consecutive-failure budget is five: after four failed rounds with no
/// success in between, the next failed attempt — the fifth — ends the
/// process, and no earlier one does, so a sixth attempt is never made.
pub proof fn lemma_failure_budget_is_five(n: nat)
    ensures
        tick_action(connect_next(after_failed_rounds(n), false)) is Exit <==> n >= 4,
{
    lemma_failed_rounds_count(n);
}

/// Any successful connection resets the attempt counter to zero and starts
/// a session.
pub proof fn lemma_success_resets_budget(s: State)
    requires
        s.status is Disconnected,
    ensures
        tick_next(connect_next(s, true)).conn_attempts == 0,
        tick_action(connect_next(s, true)) is RunSession,
{
}

/// What the per-connection loop does with one multiplexed event: forward an
/// inbound line to the protocol engine, write an outbound line to the
/// connection, or end the session.
pub enum SessionAction {
    /// Hand this inbound line to the protocol engine.
    ForwardLine(Vec<u8>),
    /// Write this protocol line to the connection.
    WriteLine(Vec<u8>),
    /// Ask the protocol engine to shut down, then end the session.
    ShutdownEngine,
    /// End the session without a shutdown handshake.
    EndSession,
}

/// The line written when the graceful quit is requested.
pub open spec fn quit_line() -> Seq<u8> {
    seq![81u8, 85u8, 73u8, 84u8, 32u8, 58u8, 76u8, 101u8, 97u8, 118u8, 105u8, 110u8, 103u8]
}

/// One session's multiplexing state: whether the graceful quit was
/// requested, which makes the session's end the process's end.
pub struct Session {
    pub should_exit: bool,
}

impl Session {
    /// The state at the start of one session: no quit requested yet.
    pub fn new() -> (s: Session)
        ensures
            !s.should_exit,
    {
        Session { should_exit: false }
    }

    /// Decide what to do with one multiplexed event. An inbound line goes
    /// to the protocol engine; an outbound line goes to the connection; the
    /// disconnect request writes the quit line and marks the session's end
    /// as the process's end; the peer closing the connection ends the
    /// session after a shutdown handshake with the engine; a read error
    /// ends it without one.
    pub fn step(&mut self, msg: SocketMessage) -> (a: SessionAction)
        ensures
            (msg matches SocketMessage::Input(l) ==> (a matches SessionAction::ForwardLine(f)
                && f@ == l@ && final(self).should_exit == old(self).should_exit)),
            (msg matches SocketMessage::Output(l) ==> (a matches SessionAction::WriteLine(w)
                && w@ == l@ && final(self).should_exit == old(self).should_exit)),
            (msg is WantDisconnected ==> (a matches SessionAction::WriteLine(w) && w@
                == quit_line() && final(self).should_exit)),
            (msg is Disconnected ==> (a is ShutdownEngine && final(self).should_exit == old(
                self,
            ).should_exit)),
            (msg is Error ==> (a is EndSession && final(self).should_exit == old(
                self,
            ).should_exit)),
    {
        match msg {
            SocketMessage::Input(l) => SessionAction::ForwardLine(l),
            SocketMessage::Output(l) => SessionAction::WriteLine(l),
            SocketMessage::WantDisconnected => {
                self.should_exit = true;
                let q: [u8; 13] = [81, 85, 73, 84, 32, 58, 76, 101, 97, 118, 105, 110, 103];
                let v = vstd::slice::slice_to_vec(q.as_slice());
                proof {
                    assert(v@ =~= quit_line());
                }
                SessionAction::WriteLine(v)
            },
            SocketMessage::Disconnected => SessionAction::ShutdownEngine,
            SocketMessage::Error => SessionAction::EndSession,
        }
    }
}

} // verus!

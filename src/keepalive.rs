//! The decisions of the automatic keep-alive supervisor.
//!
//! The supervisor pings the watchdog once per interval, tolerates a bounded
//! run of consecutive failed pings, and stops when told to or when the
//! sender of its stop signal is gone. This module decides; the caller
//! performs each action (ping, wait for a stop signal, exit) and hands back
//! what happened. A new supervisor's first action is a ping.
use vstd::prelude::*;

verus! {

/// Consecutive failed pings after which the supervisor gives up.
pub const MAX_CONSECUTIVE_KEEPALIVE_ERRORS: u32 = 10;

/// Seconds the supervisor waits for a stop signal between two pings.
pub const KEEPALIVE_INTERVAL_SECS: u64 = 1;

/// What happened since the supervisor's last decision.
#[derive(Clone, Copy, Debug, PartialEq, Eq, Structural)]
pub enum KeepAliveEvent {
    /// The ping went through.
    PingSucceeded,
    /// The ping failed.
    PingFailed,
    /// The interval passed with no stop signal.
    WaitTimedOut,
    /// A stop signal arrived.
    StopSignalled,
    /// The sender of the stop signal was dropped.
    SenderDropped,
}

/// What the supervisor does next.
#[derive(Clone, Copy, Debug, PartialEq, Eq, Structural)]
pub enum KeepAliveAction {
    /// Ping the watchdog.
    Ping,
    /// Wait up to one interval for a stop signal.
    Wait,
    /// End the supervisor.
    Exit,
}

/// The supervisor's state: the run of consecutive failed pings, and whether
/// it has ended.
pub struct KeepAliveState {
    pub failures: nat,
    pub finished: bool,
}

impl KeepAliveState {
    /// The failure run never passes the limit, and reaching it ends the
    /// supervisor.
    pub open spec fn valid(self) -> bool {
        &&& self.failures <= MAX_CONSECUTIVE_KEEPALIVE_ERRORS
        &&& self.failures == MAX_CONSECUTIVE_KEEPALIVE_ERRORS ==> self.finished
    }
}

/// The state of a supervisor that has just started.
pub open spec fn initial_state() -> KeepAliveState {
    KeepAliveState { failures: 0, finished: false }
}

/// One decision: the state after an event, and the action it calls for.
pub open spec fn next(s: KeepAliveState, e: KeepAliveEvent) -> (KeepAliveState, KeepAliveAction) {
    if s.finished {
        (s, KeepAliveAction::Exit)
    } else {
        match e {
            KeepAliveEvent::PingSucceeded => (
                KeepAliveState { failures: 0, finished: false },
                KeepAliveAction::Wait,
            ),
            KeepAliveEvent::PingFailed => if s.failures + 1 >= MAX_CONSECUTIVE_KEEPALIVE_ERRORS {
                (KeepAliveState { failures: s.failures + 1, finished: true }, KeepAliveAction::Exit)
            } else {
                (
                    KeepAliveState { failures: s.failures + 1, finished: false },
                    KeepAliveAction::Wait,
                )
            },
            KeepAliveEvent::WaitTimedOut => (s, KeepAliveAction::Ping),
            KeepAliveEvent::StopSignalled => (
                KeepAliveState { failures: s.failures, finished: true },
                KeepAliveAction::Exit,
            ),
            KeepAliveEvent::SenderDropped => (
                KeepAliveState { failures: s.failures, finished: true },
                KeepAliveAction::Exit,
            ),
        }
    }
}

/// The state after a sequence of events.
pub open spec fn run(s: KeepAliveState, events: Seq<KeepAliveEvent>) -> KeepAliveState
    decreases events.len(),
{
    if events.len() == 0 {
        s
    } else {
        run(next(s, events[0]).0, events.drop_first())
    }
}

/// The actions decided along a sequence of events.
pub open spec fn run_actions(
    s: KeepAliveState,
    events: Seq<KeepAliveEvent>,
) -> Seq<KeepAliveAction>
    decreases events.len(),
{
    if events.len() == 0 {
        Seq::empty()
    } else {
        seq![next(s, events[0]).1] + run_actions(next(s, events[0]).0, events.drop_first())
    }
}

/// The number of failed pings among the events.
pub open spec fn count_failed(events: Seq<KeepAliveEvent>) -> nat
    decreases events.len(),
{
    if events.len() == 0 {
        0
    } else {
        (if events[0] == KeepAliveEvent::PingFailed {
            1nat
        } else {
            0nat
        }) + count_failed(events.drop_first())
    }
}

/// Each decision keeps the state valid.
pub proof fn lemma_next_valid(s: KeepAliveState, e: KeepAliveEvent)
    requires
        s.valid(),
    ensures
        next(s, e).0.valid(),
{
}

/// An ended supervisor stays as it is and only exits, whatever happens.
pub proof fn lemma_finished_is_final(s: KeepAliveState, events: Seq<KeepAliveEvent>)
    requires
        s.finished,
    ensures
        run(s, events) == s,
        run_actions(s, events).len() == events.len(),
        forall|i: int|
            0 <= i < events.len() ==> #[trigger] run_actions(s, events)[i]
                == KeepAliveAction::Exit,
    decreases events.len(),
{
    if events.len() > 0 {
        lemma_finished_is_final(s, events.drop_first());
    }
}

/// When the stop signal arrives or its sender is dropped, the supervisor
/// exits at once and never pings again.
pub proof fn lemma_stop_signal_ends(
    s: KeepAliveState,
    e: KeepAliveEvent,
    later: Seq<KeepAliveEvent>,
)
    requires
        s.valid(),
        e == KeepAliveEvent::StopSignalled || e == KeepAliveEvent::SenderDropped,
    ensures
        next(s, e).1 == KeepAliveAction::Exit,
        next(s, e).0.finished,
        forall|i: int|
            0 <= i < later.len() ==> #[trigger] run_actions(next(s, e).0, later)[i]
                == KeepAliveAction::Exit,
{
    lemma_finished_is_final(next(s, e).0, later);
}

/// While every ping fails, the supervisor ends exactly when the failures,
/// counted on from its current run, reach the limit.
pub proof fn lemma_failures_end_run(s: KeepAliveState, events: Seq<KeepAliveEvent>)
    requires
        s.valid(),
        !s.finished,
        forall|i: int|
            0 <= i < events.len() ==> #[trigger] events[i] == KeepAliveEvent::PingFailed
                || events[i] == KeepAliveEvent::WaitTimedOut,
    ensures
        run(s, events).finished <==> s.failures + count_failed(events)
            >= MAX_CONSECUTIVE_KEEPALIVE_ERRORS,
    decreases events.len(),
{
    if events.len() > 0 {
        let t = next(s, events[0]).0;
        let rest = events.drop_first();
        assert(events[0] == KeepAliveEvent::PingFailed || events[0]
            == KeepAliveEvent::WaitTimedOut);
        if t.finished {
            lemma_finished_is_final(t, rest);
        } else {
            assert forall|i: int| 0 <= i < rest.len() implies #[trigger] rest[i]
                == KeepAliveEvent::PingFailed || rest[i] == KeepAliveEvent::WaitTimedOut by {
                assert(rest[i] == events[i + 1]);
            }
            lemma_failures_end_run(t, rest);
        }
    }
}

/// Once as many consecutive pings as the limit allows have failed, the
/// supervisor has ended and never pings again.
pub proof fn lemma_max_failures_stop_pinging(
    s: KeepAliveState,
    events: Seq<KeepAliveEvent>,
    later: Seq<KeepAliveEvent>,
)
    requires
        s.valid(),
        !s.finished,
        forall|i: int|
            0 <= i < events.len() ==> #[trigger] events[i] == KeepAliveEvent::PingFailed
                || events[i] == KeepAliveEvent::WaitTimedOut,
        s.failures + count_failed(events) >= MAX_CONSECUTIVE_KEEPALIVE_ERRORS,
    ensures
        run(s, events).finished,
        forall|i: int|
            0 <= i < later.len() ==> #[trigger] run_actions(run(s, events), later)[i]
                == KeepAliveAction::Exit,
{
    lemma_failures_end_run(s, events);
    lemma_finished_is_final(run(s, events), later);
}

/// The keep-alive supervisor's decision state.
pub struct KeepAliveSupervisor {
    consecutive_failures: u32,
    finished: bool,
}

impl View for KeepAliveSupervisor {
    type V = KeepAliveState;

    closed spec fn view(&self) -> KeepAliveState {
        KeepAliveState { failures: self.consecutive_failures as nat, finished: self.finished }
    }
}

impl KeepAliveSupervisor {
    /// A supervisor that has just started: no failure yet. Its first action
    /// is a ping.
    pub fn new() -> (r: Self)
        ensures
            r@ == initial_state(),
            r@.valid(),
    {
        KeepAliveSupervisor { consecutive_failures: 0, finished: false }
    }

    /// Takes in what happened and decides what to do next.
    pub fn step(&mut self, event: KeepAliveEvent) -> (r: KeepAliveAction)
        requires
            old(self)@.valid(),
        ensures
            final(self)@ == next(old(self)@, event).0,
            r == next(old(self)@, event).1,
            final(self)@.valid(),
    {
        if self.finished {
            return KeepAliveAction::Exit;
        }
        match event {
            KeepAliveEvent::PingSucceeded => {
                self.consecutive_failures = 0;
                KeepAliveAction::Wait
            },
            KeepAliveEvent::PingFailed => {
                self.consecutive_failures = self.consecutive_failures + 1;
                if self.consecutive_failures >= MAX_CONSECUTIVE_KEEPALIVE_ERRORS {
                    self.finished = true;
                    KeepAliveAction::Exit
                } else {
                    KeepAliveAction::Wait
                }
            },
            KeepAliveEvent::WaitTimedOut => KeepAliveAction::Ping,
            KeepAliveEvent::StopSignalled | KeepAliveEvent::SenderDropped => {
                self.finished = true;
                KeepAliveAction::Exit
            },
        }
    }

    /// The current run of consecutive failed pings.
    pub fn consecutive_failures(&self) -> (r: u32)
        ensures
            r as nat == self@.failures,
    {
        self.consecutive_failures
    }

    /// Whether the supervisor has ended.
    pub fn is_finished(&self) -> (r: bool)
        ensures
            r == self@.finished,
    {
        self.finished
    }
}

} // verus!

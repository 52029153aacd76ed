//! The server's lifecycle: connect the store, serve, and on the termination
//! signal stop taking requests, let those in flight finish, close the store
//! once and exit.
//!
//! The decisions stand here as a state machine; whoever runs the process
//! feeds it the events it sees and performs the actions it is given.

use vstd::prelude::*;

verus! {

/// The phases of the server.
#[derive(Clone, Copy, Debug, PartialEq, Eq, Structural)]
pub enum Phase {
    Init,
    Connecting,
    Serving,
    ShuttingDown,
    Stopped,
}

/// What the process reports to the state machine.
#[derive(Clone, Copy, Debug, PartialEq, Eq, Structural)]
pub enum Event {
    /// The process has started.
    Start,
    /// The store connection was established.
    ConnectSucceeded,
    /// The store connection could not be established.
    ConnectFailed,
    /// A request has come in.
    RequestArrived,
    /// A request that was dispatched has finished.
    RequestFinished,
    /// The termination signal was delivered.
    TerminateSignal,
    /// The store's close has returned, whatever its result.
    CloseFinished,
}

/// What the process must do next.
#[derive(Clone, Copy, Debug, PartialEq, Eq, Structural)]
pub enum Action {
    /// Nothing to do; wait for the next event.
    Wait,
    /// Open the store connection.
    ConnectStore,
    /// Bind the listener and begin serving.
    BeginServing,
    /// Hand the request to the request handler.
    Dispatch,
    /// Refuse the request.
    Reject,
    /// Close the store connection.
    CloseStore,
    /// End the process with this exit code.
    Exit(u8),
}

/// The state of the lifecycle, as a mathematical value.
pub struct LifecycleState {
    pub phase: Phase,
    /// Requests dispatched and not finished.
    pub in_flight: nat,
    /// How many times the store was told to close.
    pub closes: nat,
    /// Whether the server reached `Serving`.
    pub served: bool,
}

/// The states the lifecycle can be in.
///
/// Nothing is in flight and nothing closed before serving; while serving the
/// store stays open; while shutting down the store is closed exactly when no
/// request is left in flight; once stopped, the store was closed once if the
/// server ever served, and never otherwise.
pub open spec fn valid(s: LifecycleState) -> bool {
    &&& s.closes <= 1
    &&& s.in_flight <= u64::MAX
    &&& match s.phase {
        Phase::Init | Phase::Connecting => s.in_flight == 0 && s.closes == 0 && !s.served,
        Phase::Serving => s.closes == 0 && s.served,
        Phase::ShuttingDown => s.served && (s.closes == 0 <==> s.in_flight > 0),
        Phase::Stopped => s.in_flight == 0 && s.closes == (if s.served { 1nat } else { 0nat }),
    }
}

/// The state before the process has started.
pub open spec fn initial() -> LifecycleState {
    LifecycleState { phase: Phase::Init, in_flight: 0, closes: 0, served: false }
}

/// One step: the next state and the action for event `e` in state `s`.
pub open spec fn next(s: LifecycleState, e: Event) -> (LifecycleState, Action) {
    if e == Event::RequestArrived {
        if s.phase == Phase::Serving && s.in_flight < u64::MAX {
            (LifecycleState { in_flight: s.in_flight + 1, ..s }, Action::Dispatch)
        } else {
            (s, Action::Reject)
        }
    } else {
        match (s.phase, e) {
            (Phase::Init, Event::Start) => (LifecycleState { phase: Phase::Connecting, ..s }, Action::ConnectStore),
            (Phase::Connecting, Event::ConnectSucceeded) => (
                LifecycleState { phase: Phase::Serving, served: true, ..s },
                Action::BeginServing,
            ),
            (Phase::Connecting, Event::ConnectFailed) => (LifecycleState { phase: Phase::Stopped, ..s }, Action::Exit(1)),
            (Phase::Serving, Event::RequestFinished) => if s.in_flight > 0 {
                (LifecycleState { in_flight: (s.in_flight - 1) as nat, ..s }, Action::Wait)
            } else {
                (s, Action::Wait)
            },
            (Phase::Serving, Event::TerminateSignal) => if s.in_flight == 0 {
                (LifecycleState { phase: Phase::ShuttingDown, closes: s.closes + 1, ..s }, Action::CloseStore)
            } else {
                (LifecycleState { phase: Phase::ShuttingDown, ..s }, Action::Wait)
            },
            (Phase::ShuttingDown, Event::RequestFinished) => if s.in_flight == 1 {
                (LifecycleState { in_flight: 0, closes: s.closes + 1, ..s }, Action::CloseStore)
            } else if s.in_flight > 1 {
                (LifecycleState { in_flight: (s.in_flight - 1) as nat, ..s }, Action::Wait)
            } else {
                (s, Action::Wait)
            },
            (Phase::ShuttingDown, Event::CloseFinished) => if s.closes == 1 {
                (LifecycleState { phase: Phase::Stopped, ..s }, Action::Exit(0))
            } else {
                (s, Action::Wait)
            },
            _ => (s, Action::Wait),
        }
    }
}

/// The server's lifecycle controller.
pub struct Lifecycle {
    phase: Phase,
    in_flight: u64,
    closes: u64,
    served: bool,
}

impl View for Lifecycle {
    type V = LifecycleState;

    closed spec fn view(&self) -> LifecycleState {
        LifecycleState {
            phase: self.phase,
            in_flight: self.in_flight as nat,
            closes: self.closes as nat,
            served: self.served,
        }
    }
}

impl Lifecycle {
    /// A controller for a process that has not started yet.
    pub fn new() -> (r: Lifecycle)
        ensures
            r@ == initial(),
            valid(r@),
    {
        Lifecycle { phase: Phase::Init, in_flight: 0, closes: 0, served: false }
    }

    /// The current phase.
    pub fn phase(&self) -> (r: Phase)
        ensures
            r == self@.phase,
    {
        self.phase
    }

    /// The number of requests dispatched and not finished.
    pub fn in_flight(&self) -> (r: u64)
        ensures
            r == self@.in_flight,
    {
        self.in_flight
    }

    /// Takes in one event and says what to do.
    pub fn step(&mut self, e: Event) -> (r: Action)
        requires
            valid(old(self)@),
        ensures
            (final(self)@, r) == next(old(self)@, e),
            valid(final(self)@),
    {
        let phase = self.phase;
        let r = if e == Event::RequestArrived {
            if phase == Phase::Serving && self.in_flight < u64::MAX {
                self.in_flight = self.in_flight + 1;
                Action::Dispatch
            } else {
                Action::Reject
            }
        } else {
            match (phase, e) {
                (Phase::Init, Event::Start) => {
                    self.phase = Phase::Connecting;
                    Action::ConnectStore
                },
                (Phase::Connecting, Event::ConnectSucceeded) => {
                    self.phase = Phase::Serving;
                    self.served = true;
                    Action::BeginServing
                },
                (Phase::Connecting, Event::ConnectFailed) => {
                    self.phase = Phase::Stopped;
                    Action::Exit(1)
                },
                (Phase::Serving, Event::RequestFinished) => {
                    if self.in_flight > 0 {
                        self.in_flight = self.in_flight - 1;
                    }
                    Action::Wait
                },
                (Phase::Serving, Event::TerminateSignal) => {
                    self.phase = Phase::ShuttingDown;
                    if self.in_flight == 0 {
                        self.closes = self.closes + 1;
                        Action::CloseStore
                    } else {
                        Action::Wait
                    }
                },
                (Phase::ShuttingDown, Event::RequestFinished) => {
                    if self.in_flight == 1 {
                        self.in_flight = 0;
                        self.closes = self.closes + 1;
                        Action::CloseStore
                    } else {
                        if self.in_flight > 1 {
                            self.in_flight = self.in_flight - 1;
                        }
                        Action::Wait
                    }
                },
                (Phase::ShuttingDown, Event::CloseFinished) => {
                    if self.closes == 1 {
                        self.phase = Phase::Stopped;
                        Action::Exit(0)
                    } else {
                        Action::Wait
                    }
                },
                _ => Action::Wait,
            }
        };
        proof {
            assert(self@ =~= next(old(self)@, e).0);
        }
        r
    }
}

} // verus!

verus! {

/// The state after the events `evs`, one after the other, from `s`.
pub open spec fn run(s: LifecycleState, evs: Seq<Event>) -> LifecycleState
    decreases evs.len(),
{
    if evs.len() == 0 {
        s
    } else {
        run(next(s, evs[0]).0, evs.drop_first())
    }
}

/// How many `CloseStore` actions the events `evs` draw from `s`.
pub open spec fn closes_in_run(s: LifecycleState, evs: Seq<Event>) -> nat
    decreases evs.len(),
{
    if evs.len() == 0 {
        0
    } else {
        (if next(s, evs[0]).1 == Action::CloseStore { 1nat } else { 0nat }) + closes_in_run(
            next(s, evs[0]).0,
            evs.drop_first(),
        )
    }
}

/// Every step keeps the lifecycle's state valid, and a close is ordered only
/// when nothing is in flight and the store was never told to close before.
pub proof fn lemma_step_keeps_valid(s: LifecycleState, e: Event)
    requires
        valid(s),
    ensures
        valid(next(s, e).0),
        next(s, e).1 == Action::CloseStore ==> s.closes == 0 && next(s, e).0.in_flight == 0
            && next(s, e).0.closes == 1,
        next(s, e).1 != Action::CloseStore ==> next(s, e).0.closes == s.closes,
{
}

/// Once the termination signal has been taken in, no request is accepted:
/// the request is refused and the state stays as it was.
pub proof fn lemma_no_admission_after_signal(s: LifecycleState)
    requires
        valid(s),
        s.phase == Phase::ShuttingDown || s.phase == Phase::Stopped,
    ensures
        next(s, Event::RequestArrived) == (s, Action::Reject),
{
}

/// Requests in flight when the signal comes are drained: while any is in
/// flight the process neither closes the store nor exits, and each one that
/// finishes is counted off.
pub proof fn lemma_in_flight_requests_drain(s: LifecycleState, e: Event)
    requires
        valid(s),
        s.in_flight > 0,
    ensures
        next(s, e).1 != Action::CloseStore || (e == Event::RequestFinished && s.in_flight == 1),
        !(next(s, e).1 is Exit),
        e == Event::RequestFinished ==> next(s, e).0.in_flight == s.in_flight - 1,
{
}

/// Over any run of events, the store is told to close at most once, each
/// close finds the state valid, and a run that ends stopped after serving
/// has closed the store exactly once.
pub proof fn lemma_close_at_most_once(evs: Seq<Event>)
    ensures
        valid(run(initial(), evs)),
        closes_in_run(initial(), evs) == run(initial(), evs).closes,
        closes_in_run(initial(), evs) <= 1,
        run(initial(), evs).phase == Phase::Stopped && run(initial(), evs).served ==> closes_in_run(
            initial(),
            evs,
        ) == 1,
{
    lemma_run_counts_closes(initial(), evs);
}

/// From a valid state, a run stays valid and the closes it orders are the
/// growth of the state's close count.
proof fn lemma_run_counts_closes(s: LifecycleState, evs: Seq<Event>)
    requires
        valid(s),
    ensures
        valid(run(s, evs)),
        closes_in_run(s, evs) + s.closes == run(s, evs).closes,
    decreases evs.len(),
{
    if evs.len() > 0 {
        lemma_step_keeps_valid(s, evs[0]);
        lemma_run_counts_closes(next(s, evs[0]).0, evs.drop_first());
    }
}

} // verus!

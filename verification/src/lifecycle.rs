//! The lifecycle of a server: starting, running, draining, stopped.
//!
//! The controller decides; the caller does. The caller reports what happened
//! as an `Event` and carries out the `Action` it gets back.

use vstd::prelude::*;

verus! {

/// Where the server is in its life.
#[derive(Clone, Copy, Debug, PartialEq, Eq, Structural)]
pub enum Phase {
    Starting,
    Running,
    Draining,
    Stopped,
}

/// What the caller reports to the controller.
#[derive(Clone, Copy, Debug, PartialEq, Eq, Structural)]
pub enum Event {
    /// The listener is bound.
    Bound,
    /// The listener could not be bound.
    BindFailed,
    /// A shutdown was requested from outside.
    Shutdown,
    /// A tool call wants to start.
    Arrival,
    /// A tool call has finished and its result has been delivered.
    Completed,
    /// The time allowed for draining is over.
    DrainTimeout,
}

/// How the process ends.
#[derive(Clone, Copy, Debug, PartialEq, Eq, Structural)]
pub enum ExitStatus {
    /// Everything in flight was finished.
    Clean,
    /// The server never started.
    BindFailure,
    /// The drain timeout cut work short.
    Forced,
}

/// What the caller is to do next.
#[derive(Clone, Copy, Debug, PartialEq, Eq, Structural)]
pub enum Action {
    /// Nothing.
    Continue,
    /// Start accepting calls.
    Serve,
    /// Let the call run.
    Admit,
    /// Turn the call away.
    Refuse,
    /// Accept nothing new and let what runs finish.
    StopAccepting,
    /// Close what is left and end the process.
    Exit(ExitStatus),
}

/// The controller's state: the phase, how many calls are in flight, and
/// whether the stop was forced by the drain timeout.
#[derive(Clone, Copy, Debug, PartialEq, Eq, Structural)]
pub struct Lifecycle {
    pub phase: Phase,
    pub in_flight: u64,
    pub forced: bool,
}

impl ExitStatus {
    /// The process exit code: 0 for a clean stop, 1 if the listener could not
    /// be bound, 2 for a forced stop.
    pub fn code(self) -> (code: u8)
        ensures
            code == (match self {
                ExitStatus::Clean => 0u8,
                ExitStatus::BindFailure => 1u8,
                ExitStatus::Forced => 2u8,
            }),
    {
        match self {
            ExitStatus::Clean => 0,
            ExitStatus::BindFailure => 1,
            ExitStatus::Forced => 2,
        }
    }
}

impl Lifecycle {
    /// Nothing is in flight before the server runs, nothing is left in flight
    /// by a stop that was not forced, and only a stop can be forced.
    pub open spec fn wf(self) -> bool {
        &&& self.phase == Phase::Starting ==> self.in_flight == 0
        &&& self.phase == Phase::Stopped && !self.forced ==> self.in_flight == 0
        &&& self.forced ==> self.phase == Phase::Stopped
    }

    /// The state after an event, and what the caller is to do.
    pub open spec fn next(self, event: Event) -> (Lifecycle, Action) {
        match (self.phase, event) {
            (Phase::Starting, Event::Bound) => (
                Lifecycle { phase: Phase::Running, ..self },
                Action::Serve,
            ),
            (Phase::Starting, Event::BindFailed) => (
                Lifecycle { phase: Phase::Stopped, ..self },
                Action::Exit(ExitStatus::BindFailure),
            ),
            (Phase::Starting, Event::Shutdown) => (
                Lifecycle { phase: Phase::Stopped, ..self },
                Action::Exit(ExitStatus::Clean),
            ),
            (Phase::Running, Event::Arrival) => if self.in_flight < u64::MAX {
                (Lifecycle { in_flight: (self.in_flight + 1) as u64, ..self }, Action::Admit)
            } else {
                (self, Action::Refuse)
            },
            (Phase::Running, Event::Completed) => if self.in_flight > 0 {
                (Lifecycle { in_flight: (self.in_flight - 1) as u64, ..self }, Action::Continue)
            } else {
                (self, Action::Continue)
            },
            (Phase::Running, Event::Shutdown) => if self.in_flight == 0 {
                (Lifecycle { phase: Phase::Stopped, ..self }, Action::Exit(ExitStatus::Clean))
            } else {
                (Lifecycle { phase: Phase::Draining, ..self }, Action::StopAccepting)
            },
            (Phase::Draining, Event::Completed) => if self.in_flight <= 1 {
                (
                    Lifecycle { phase: Phase::Stopped, in_flight: 0, forced: false },
                    Action::Exit(ExitStatus::Clean),
                )
            } else {
                (Lifecycle { in_flight: (self.in_flight - 1) as u64, ..self }, Action::Continue)
            },
            (Phase::Draining, Event::DrainTimeout) => (
                Lifecycle { phase: Phase::Stopped, forced: true, ..self },
                Action::Exit(ExitStatus::Forced),
            ),
            (_, Event::Arrival) => (self, Action::Refuse),
            _ => (self, Action::Continue),
        }
    }

    /// The state after a run of events, one after the other.
    pub open spec fn run(self, events: Seq<Event>) -> Lifecycle
        decreases events.len(),
    {
        if events.len() == 0 {
            self
        } else {
            self.next(events[0]).0.run(events.skip(1))
        }
    }

    /// How many of the events report a finished call.
    pub open spec fn completions(events: Seq<Event>) -> nat
        decreases events.len(),
    {
        if events.len() == 0 {
            0
        } else {
            let rest = Self::completions(events.skip(1));
            if events[0] == Event::Completed {
                rest + 1
            } else {
                rest
            }
        }
    }

    /// A controller that has not started yet.
    pub fn new() -> (lifecycle: Lifecycle)
        ensures
            lifecycle == (Lifecycle { phase: Phase::Starting, in_flight: 0, forced: false }),
            lifecycle.wf(),
    {
        Lifecycle { phase: Phase::Starting, in_flight: 0, forced: false }
    }

    /// Takes an event in and says what to do.
    pub fn step(&mut self, event: Event) -> (action: Action)
        requires
            old(self).wf(),
        ensures
            (*final(self), action) == old(self).next(event),
            final(self).wf(),
    {
        match (self.phase, event) {
            (Phase::Starting, Event::Bound) => {
                self.phase = Phase::Running;
                Action::Serve
            },
            (Phase::Starting, Event::BindFailed) => {
                self.phase = Phase::Stopped;
                Action::Exit(ExitStatus::BindFailure)
            },
            (Phase::Starting, Event::Shutdown) => {
                self.phase = Phase::Stopped;
                Action::Exit(ExitStatus::Clean)
            },
            (Phase::Running, Event::Arrival) => {
                if self.in_flight < u64::MAX {
                    self.in_flight = self.in_flight + 1;
                    Action::Admit
                } else {
                    Action::Refuse
                }
            },
            (Phase::Running, Event::Completed) => {
                if self.in_flight > 0 {
                    self.in_flight = self.in_flight - 1;
                }
                Action::Continue
            },
            (Phase::Running, Event::Shutdown) => {
                if self.in_flight == 0 {
                    self.phase = Phase::Stopped;
                    Action::Exit(ExitStatus::Clean)
                } else {
                    self.phase = Phase::Draining;
                    Action::StopAccepting
                }
            },
            (Phase::Draining, Event::Completed) => {
                if self.in_flight <= 1 {
                    self.phase = Phase::Stopped;
                    self.in_flight = 0;
                    self.forced = false;
                    Action::Exit(ExitStatus::Clean)
                } else {
                    self.in_flight = self.in_flight - 1;
                    Action::Continue
                }
            },
            (Phase::Draining, Event::DrainTimeout) => {
                self.phase = Phase::Stopped;
                self.forced = true;
                Action::Exit(ExitStatus::Forced)
            },
            (_, Event::Arrival) => Action::Refuse,
            _ => Action::Continue,
        }
    }

    /// Every step keeps the state well formed.
    pub proof fn lemma_next_wf(self, event: Event)
        requires
            self.wf(),
        ensures
            self.next(event).0.wf(),
    {
    }

    /// A shutdown request never cuts a running call short: with calls in
    /// flight the server drains, and while it drains it admits nothing, and
    /// it stops only when the last call in flight has completed, cleanly, or
    /// when the drain timeout has elapsed, and then the stop is reported as
    /// forced.
    pub proof fn lemma_drain(self, event: Event)
        requires
            self.wf(),
            self.in_flight > 0,
        ensures
            self.phase == Phase::Running ==> self.next(Event::Shutdown) == (
                Lifecycle { phase: Phase::Draining, ..self },
                Action::StopAccepting,
            ),
            self.phase == Phase::Draining ==> self.next(event).0.in_flight <= self.in_flight
                && self.next(event).1 != Action::Admit,
            self.phase == Phase::Draining && self.next(event).0.phase == Phase::Stopped ==> (event
                == Event::Completed && self.in_flight == 1 && self.next(event) == (
                Lifecycle { phase: Phase::Stopped, in_flight: 0, forced: false },
                Action::Exit(ExitStatus::Clean),
            )) || (event == Event::DrainTimeout && self.next(event) == (
                Lifecycle { phase: Phase::Stopped, forced: true, ..self },
                Action::Exit(ExitStatus::Forced),
            )),
    {
    }

    /// Over any run of events, a server that ends stopped without force has
    /// seen every call that was in flight complete: the run reports at least
    /// as many completions as calls were in flight at its start.
    pub proof fn lemma_run_completes(self, events: Seq<Event>)
        requires
            self.wf(),
        ensures
            self.run(events).wf(),
            self.run(events).forced || self.run(events).in_flight + Self::completions(events)
                >= self.in_flight,
            self.run(events).phase == Phase::Stopped && !self.run(events).forced
                ==> Self::completions(events) >= self.in_flight,
        decreases events.len(),
    {
        if events.len() > 0 {
            self.lemma_next_wf(events[0]);
            self.next(events[0]).0.lemma_run_completes(events.skip(1));
        }
    }

    /// Once stopped, the server stays as it is, whatever is reported.
    pub proof fn lemma_stopped_stays(self, event: Event)
        requires
            self.phase == Phase::Stopped,
        ensures
            self.next(event).0 == self,
            self.next(event).1 == Action::Refuse || self.next(event).1 == Action::Continue,
    {
    }
}

} // verus!

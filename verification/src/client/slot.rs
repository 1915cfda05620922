//! The life of one connection slot: it waits its turn, then connects, writes
//! and reads over and over, paced to the plan, until the run's time is up.
//! The slot decides; whoever drives it performs each action and comes back
//! with how it went and what time it is.

use vstd::prelude::*;
use crate::client::tcp::Plan;

verus! {

/// Where a slot stands.
#[derive(Debug, Copy, Clone, PartialEq, Eq, Structural)]
pub enum Phase {
    /// Waiting before the first request, to spread the slots' starts.
    Staggering,
    Connecting,
    Writing,
    Reading,
    /// Waiting out the rest of the pacing delay after a request.
    Pacing,
    /// The run's time is up: the slot does nothing more.
    Terminated,
}

/// How the action that a slot asked for went.
#[derive(Debug, Copy, Clone, PartialEq, Eq, Structural)]
pub enum Outcome {
    Succeeded,
    TimedOut,
    Failed,
}

/// What a slot asks its driver to do next.
#[derive(Debug, Copy, Clone, PartialEq, Eq, Structural)]
pub enum Action {
    /// Wait so many nanoseconds.
    Sleep(u64),
    /// Open a connection, within the connect timeout.
    Connect,
    /// Send the whole request.
    Write,
    /// Read the response to its end, within the read timeout.
    Read,
    /// Leave: the slot has terminated.
    Exit,
}

/// How loudly an outcome is logged.
#[derive(Debug, Copy, Clone, PartialEq, Eq, Structural)]
pub enum Severity {
    Debug,
    Warn,
    Error,
}

/// A slot's answer to an outcome.
#[derive(Debug, Copy, Clone, PartialEq, Eq, Structural)]
pub struct Directive {
    pub action: Action,
    /// The severity at which the outcome just reported is logged, if at all.
    pub log: Option<Severity>,
    /// The request took longer than the pacing delay: the rate cannot be
    /// held with this many slots.
    pub behind: bool,
}

#[derive(Debug, Copy, Clone, PartialEq, Eq, Structural)]
pub struct Slot {
    pub phase: Phase,
    /// When the request in progress, or the last one, began: nanoseconds
    /// since the start of the run.
    pub request_start: u64,
}

/// A timeout is expected and logged low: not at all for a connect, as a
/// warning for a read. Other failures are errors, successes are for
/// debugging. Waits are not logged.
pub open spec fn spec_severity(phase: Phase, outcome: Outcome) -> Option<Severity> {
    match phase {
        Phase::Connecting => match outcome {
            Outcome::Succeeded => Some(Severity::Debug),
            Outcome::TimedOut => None,
            Outcome::Failed => Some(Severity::Error),
        },
        Phase::Writing => match outcome {
            Outcome::Succeeded => Some(Severity::Debug),
            _ => Some(Severity::Error),
        },
        Phase::Reading => match outcome {
            Outcome::Succeeded => Some(Severity::Debug),
            Outcome::TimedOut => Some(Severity::Warn),
            Outcome::Failed => Some(Severity::Error),
        },
        _ => None,
    }
}

pub fn severity(phase: Phase, outcome: Outcome) -> (level: Option<Severity>)
    ensures
        level == spec_severity(phase, outcome),
{
    match phase {
        Phase::Connecting => match outcome {
            Outcome::Succeeded => Some(Severity::Debug),
            Outcome::TimedOut => None,
            Outcome::Failed => Some(Severity::Error),
        },
        Phase::Writing => match outcome {
            Outcome::Succeeded => Some(Severity::Debug),
            _ => Some(Severity::Error),
        },
        Phase::Reading => match outcome {
            Outcome::Succeeded => Some(Severity::Debug),
            Outcome::TimedOut => Some(Severity::Warn),
            Outcome::Failed => Some(Severity::Error),
        },
        _ => None,
    }
}

impl Plan {
    /// The run's time is up at `now`: more time has passed than the run was
    /// given.
    pub open spec fn expired(self, now: u64) -> bool {
        self.deadline matches Some(deadline) && now > deadline
    }

    pub fn is_expired(&self, now: u64) -> (expired: bool)
        ensures
            expired == self.expired(now),
    {
        match self.deadline {
            Some(deadline) => now > deadline,
            None => false,
        }
    }
}

impl Slot {
    /// The time that the request which began at `request_start` has taken by
    /// `now`; nothing if the clock reads earlier than that.
    pub open spec fn spec_elapsed(self, now: u64) -> int {
        if now >= self.request_start {
            now - self.request_start
        } else {
            0
        }
    }

    /// The head of the loop: a new request begins unless the run's time is
    /// up.
    pub open spec fn spec_next_request(plan: Plan, now: u64) -> (Slot, Action) {
        if plan.expired(now) {
            (Slot { phase: Phase::Terminated, request_start: now }, Action::Exit)
        } else {
            (Slot { phase: Phase::Connecting, request_start: now }, Action::Connect)
        }
    }

    /// A slot at its launch: with a rate it first waits its stagger, without
    /// one it goes to its first request.
    pub open spec fn spec_launch(plan: Plan, slot: u32, now: u64) -> (Slot, Action) {
        if plan.paced() {
            (
                Slot { phase: Phase::Staggering, request_start: now },
                Action::Sleep(plan.spec_stagger(slot) as u64),
            )
        } else {
            Self::spec_next_request(plan, now)
        }
    }

    /// The end of an iteration, whether the request went through or not:
    /// with a rate the slot waits out what is left of the pacing delay, or is
    /// behind if nothing is left; then the next request is due.
    pub open spec fn spec_after_request(self, plan: Plan, now: u64) -> (Slot, Action, bool) {
        if plan.paced() && self.spec_elapsed(now) < plan.spec_pacing_delay() {
            (
                Slot { phase: Phase::Pacing, ..self },
                Action::Sleep((plan.spec_pacing_delay() - self.spec_elapsed(now)) as u64),
                false,
            )
        } else {
            let next = Self::spec_next_request(plan, now);
            (next.0, next.1, plan.paced())
        }
    }

    /// The slot after it has learnt, at `now`, how its last action went, and
    /// what it asks for next.
    pub open spec fn spec_advance(self, plan: Plan, outcome: Outcome, now: u64) -> (
        Slot,
        Directive,
    ) {
        let log = spec_severity(self.phase, outcome);
        match self.phase {
            Phase::Staggering | Phase::Pacing => {
                let next = Self::spec_next_request(plan, now);
                (next.0, Directive { action: next.1, log, behind: false })
            },
            Phase::Connecting if outcome is Succeeded => (
                Slot { phase: Phase::Writing, ..self },
                Directive { action: Action::Write, log, behind: false },
            ),
            Phase::Writing if outcome is Succeeded => (
                Slot { phase: Phase::Reading, ..self },
                Directive { action: Action::Read, log, behind: false },
            ),
            Phase::Connecting | Phase::Writing | Phase::Reading => {
                let next = self.spec_after_request(plan, now);
                (next.0, Directive { action: next.1, log, behind: next.2 })
            },
            Phase::Terminated => (self, Directive { action: Action::Exit, log, behind: false }),
        }
    }

    fn next_request(plan: &Plan, now: u64) -> (next: (Slot, Action))
        ensures
            next == Self::spec_next_request(*plan, now),
    {
        if plan.is_expired(now) {
            (Slot { phase: Phase::Terminated, request_start: now }, Action::Exit)
        } else {
            (Slot { phase: Phase::Connecting, request_start: now }, Action::Connect)
        }
    }

    fn after_request(&self, plan: &Plan, now: u64) -> (next: (Slot, Action, bool))
        requires
            plan.wf(),
        ensures
            next == self.spec_after_request(*plan, now),
    {
        let elapsed = if now >= self.request_start {
            now - self.request_start
        } else {
            0
        };
        match plan.pacing_delay() {
            Some(delay) if elapsed < delay => (
                Slot { phase: Phase::Pacing, request_start: self.request_start },
                Action::Sleep(delay - elapsed),
                false,
            ),
            Some(_) => {
                let next = Self::next_request(plan, now);
                (next.0, next.1, true)
            },
            None => {
                let next = Self::next_request(plan, now);
                (next.0, next.1, false)
            },
        }
    }

    /// Slot number `slot` of a thread, launched at `now`, and its first
    /// action.
    pub fn launch(plan: &Plan, slot: u32, now: u64) -> (first: (Slot, Action))
        requires
            plan.wf(),
            slot < plan.conns_per_thread,
        ensures
            first == Self::spec_launch(*plan, slot, now),
    {
        match plan.stagger(slot) {
            Some(wait) => (Slot { phase: Phase::Staggering, request_start: now }, Action::Sleep(wait)),
            None => Self::next_request(plan, now),
        }
    }

    /// Takes in how the action that the slot last asked for went, and the
    /// time, and gives the next action. A failed connect, write or read ends
    /// the iteration and nothing more: only the run's time ends a slot.
    pub fn advance(&mut self, plan: &Plan, outcome: Outcome, now: u64) -> (directive: Directive)
        requires
            plan.wf(),
        ensures
            (*final(self), directive) == old(self).spec_advance(*plan, outcome, now),
    {
        let log = severity(self.phase, outcome);
        let succeeded = match outcome {
            Outcome::Succeeded => true,
            _ => false,
        };
        match self.phase {
            Phase::Staggering | Phase::Pacing => {
                let next = Self::next_request(plan, now);
                *self = next.0;
                Directive { action: next.1, log, behind: false }
            },
            Phase::Connecting if succeeded => {
                self.phase = Phase::Writing;
                Directive { action: Action::Write, log, behind: false }
            },
            Phase::Writing if succeeded => {
                self.phase = Phase::Reading;
                Directive { action: Action::Read, log, behind: false }
            },
            Phase::Connecting | Phase::Writing | Phase::Reading => {
                let next = self.after_request(plan, now);
                *self = next.0;
                Directive { action: next.1, log, behind: next.2 }
            },
            Phase::Terminated => Directive { action: Action::Exit, log, behind: false },
        }
    }
}

} // verus!

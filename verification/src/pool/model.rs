//! The pool's bookkeeping as mathematics: three counters and a queue, and the
//! effect that each kind of step has on them.

use vstd::prelude::*;
use crate::pool::WorkerEvent;
use crate::pool::WorkerPoolCommand;

verus! {

/// The abstract state of a pool.
pub struct PoolView<In> {
    /// How many workers are wanted.
    pub target: nat,
    /// Workers started and not yet reported as finished.
    pub live: nat,
    /// Stop requests sent and not yet acknowledged.
    pub stopping: nat,
    /// Items waiting for a worker, oldest first.
    pub queue: Seq<In>,
}

/// One thing that can happen to a pool.
pub enum Step<In> {
    /// An item is put at the back of the queue.
    Push(In),
    /// A worker reports that it has finished.
    Event(WorkerEvent),
    /// A supervisor's command is handled.
    Command(WorkerPoolCommand),
    /// The pool's owner sets the target, to any number.
    Retarget(usize),
    /// The pool compares the effective count with the target and acts once.
    Balance,
}

/// The target that a `SetWorkerCount(n)` command installs.
pub open spec fn normalized(n: usize) -> nat {
    if n == 0 {
        1
    } else {
        n as nat
    }
}

impl<In> PoolView<In> {
    /// No more stops are outstanding than workers are live, and the counters
    /// fit the machine.
    pub open spec fn wf(self) -> bool {
        &&& self.stopping <= self.live
        &&& self.live <= usize::MAX
        &&& self.target <= usize::MAX
    }

    /// Workers that are still producing: live ones not yet told to stop.
    pub open spec fn effective(self) -> nat {
        (self.live - self.stopping) as nat
    }

    pub open spec fn working(self) -> bool {
        self.effective() > 0
    }

    pub open spec fn at_target(self) -> bool {
        self.effective() == self.target
    }

    pub open spec fn with_target(self, n: nat) -> Self {
        PoolView { target: n, ..self }
    }

    pub open spec fn after_push(self, item: In) -> Self {
        PoolView { queue: self.queue.push(item), ..self }
    }

    /// A finished worker leaves the live count. A stopped one also settles one
    /// outstanding stop. Neither counter goes below zero, and the stops never
    /// exceed the live count: a report that has no live worker to belong to
    /// changes nothing.
    pub open spec fn after_event(self, event: WorkerEvent) -> Self {
        if self.live == 0 {
            self
        } else {
            let live = (self.live - 1) as nat;
            let stopping = match event {
                WorkerEvent::WorkerDone => if self.stopping <= live {
                    self.stopping
                } else {
                    live
                },
                WorkerEvent::WorkerStopped => if self.stopping > 0 {
                    (self.stopping - 1) as nat
                } else {
                    0
                },
            };
            PoolView { live, stopping, ..self }
        }
    }

    /// `Stop` leaves the bookkeeping alone; `SetWorkerCount` retargets.
    pub open spec fn after_command(self, command: WorkerPoolCommand) -> Self {
        match command {
            WorkerPoolCommand::Stop => self,
            WorkerPoolCommand::SetWorkerCount(n) => self.with_target(normalized(n)),
        }
    }

    /// Balancing starts a worker: below target, with work queued, and room in
    /// the live counter.
    pub open spec fn starts(self) -> bool {
        &&& self.effective() < self.target
        &&& self.queue.len() > 0
        &&& self.live < usize::MAX
    }

    /// Balancing asks one worker to stop: above target.
    pub open spec fn stops(self) -> bool {
        self.effective() > self.target
    }

    /// Nothing is left to do: no worker is working and balancing would start
    /// none.
    pub open spec fn at_rest(self) -> bool {
        !self.working() && !self.starts()
    }

    pub open spec fn after_start(self) -> Self {
        PoolView { live: self.live + 1, queue: self.queue.drop_first(), ..self }
    }

    pub open spec fn after_stop(self) -> Self {
        PoolView { stopping: self.stopping + 1, ..self }
    }

    /// At most one action per balancing.
    pub open spec fn after_balance(self) -> Self {
        if self.starts() {
            self.after_start()
        } else if self.stops() {
            self.after_stop()
        } else {
            self
        }
    }

    pub open spec fn after_step(self, step: Step<In>) -> Self {
        match step {
            Step::Push(item) => self.after_push(item),
            Step::Event(event) => self.after_event(event),
            Step::Command(command) => self.after_command(command),
            Step::Retarget(n) => self.with_target(n as nat),
            Step::Balance => self.after_balance(),
        }
    }

    /// The state after a sequence of steps, taken in order.
    pub open spec fn run(self, steps: Seq<Step<In>>) -> Self
        decreases steps.len(),
    {
        if steps.len() == 0 {
            self
        } else {
            self.run(steps.drop_last()).after_step(steps.last())
        }
    }

    /// The items that balancing handed to workers during a run, in the order
    /// in which they were started.
    pub open spec fn started(self, steps: Seq<Step<In>>) -> Seq<In>
        decreases steps.len(),
    {
        if steps.len() == 0 {
            Seq::empty()
        } else {
            let before = self.run(steps.drop_last());
            let earlier = self.started(steps.drop_last());
            if steps.last() is Balance && before.starts() {
                earlier.push(before.queue[0])
            } else {
                earlier
            }
        }
    }
}

/// The items that a sequence of steps pushed, in order.
pub open spec fn pushed<In>(steps: Seq<Step<In>>) -> Seq<In>
    decreases steps.len(),
{
    if steps.len() == 0 {
        Seq::empty()
    } else {
        match steps.last() {
            Step::Push(item) => pushed(steps.drop_last()).push(item),
            _ => pushed(steps.drop_last()),
        }
    }
}

/// The largest target in force at any point of a run that starts with `first`.
pub open spec fn peak_target<In>(first: nat, steps: Seq<Step<In>>) -> nat
    decreases steps.len(),
{
    if steps.len() == 0 {
        first
    } else {
        let earlier = peak_target(first, steps.drop_last());
        match steps.last() {
            Step::Command(WorkerPoolCommand::SetWorkerCount(n)) => if normalized(n) > earlier {
                normalized(n)
            } else {
                earlier
            },
            Step::Retarget(n) => if n > earlier {
                n as nat
            } else {
                earlier
            },
            _ => earlier,
        }
    }
}

/// No step of the sequence changes the target.
pub open spec fn keeps_target<In>(steps: Seq<Step<In>>) -> bool {
    forall|i: int|
        0 <= i < steps.len() ==> !(#[trigger] steps[i] is Retarget) && !(steps[i] matches Step::Command(
            WorkerPoolCommand::SetWorkerCount(_),
        ))
}

/// No step of the sequence puts an item in the queue.
pub open spec fn no_push<In>(steps: Seq<Step<In>>) -> bool {
    forall|i: int| 0 <= i < steps.len() ==> !(#[trigger] steps[i] is Push)
}

/// One of the steps is the handling of a `Stop` command.
pub open spec fn stop_handled<In>(steps: Seq<Step<In>>) -> bool {
    exists|i: int| 0 <= i < steps.len() && #[trigger] steps[i] == Step::<In>::Command(
        WorkerPoolCommand::Stop,
    )
}

/// Every step is a worker's report or a command.
pub open spec fn reports_and_commands<In>(steps: Seq<Step<In>>) -> bool {
    forall|i: int| 0 <= i < steps.len() ==> (#[trigger] steps[i] is Event) || steps[i] is Command
}

/// Every step is one that the run loop takes by itself: a report booked, a
/// command carried out, or a balancing.
pub open spec fn loop_steps<In>(steps: Seq<Step<In>>) -> bool {
    forall|i: int|
        0 <= i < steps.len() ==> (#[trigger] steps[i] is Event) || steps[i] is Command
            || steps[i] is Balance
}

/// The handling of a `Stop` command, as a step.
pub open spec fn stop_step<In>() -> Step<In> {
    Step::Command(WorkerPoolCommand::Stop)
}

/// A `Stop`, where one is handled, is the last step: nothing is done behind
/// it.
pub open spec fn stop_is_last<In>(steps: Seq<Step<In>>) -> bool {
    stop_handled(steps) ==> steps.len() > 0 && steps.last() == stop_step::<In>() && !stop_handled(
        steps.drop_last(),
    )
}

/// Every step is a worker's report.
pub open spec fn only_reports<In>(steps: Seq<Step<In>>) -> bool {
    forall|i: int| 0 <= i < steps.len() ==> (#[trigger] steps[i]) is Event
}

/// So many balancings in a row and nothing else.
pub open spec fn balances<In>(count: nat) -> Seq<Step<In>> {
    Seq::new(count, |i: int| Step::Balance)
}

/// The reports stand before the commands.
pub open spec fn reports_come_first<In>(steps: Seq<Step<In>>) -> bool {
    forall|i: int, j: int|
        0 <= i < j < steps.len() && (#[trigger] steps[i]) is Command ==> (#[trigger] steps[j]) is Command
}

/// How many of the steps are balancings.
pub open spec fn balancings<In>(steps: Seq<Step<In>>) -> nat
    decreases steps.len(),
{
    if steps.len() == 0 {
        0
    } else if steps.last() is Balance {
        balancings(steps.drop_last()) + 1
    } else {
        balancings(steps.drop_last())
    }
}

/// How many rounds of the run loop the steps make up: every round ends in its
/// one balancing, but for the round that handles a `Stop`.
pub open spec fn rounds<In>(steps: Seq<Step<In>>) -> nat {
    if stop_handled(steps) {
        balancings(steps) + 1
    } else {
        balancings(steps)
    }
}

impl<In> PoolView<In> {
    /// `steps` are the reports booked and then the commands carried out
    /// between `self` and `after`. `go_on` says that no `Stop` was among
    /// them; a `Stop` is the last of them.
    pub open spec fn is_booking(self, steps: Seq<Step<In>>, after: Self, go_on: bool) -> bool {
        &&& self.run(steps) == after
        &&& reports_and_commands(steps)
        &&& reports_come_first(steps)
        &&& stop_is_last(steps)
        &&& go_on == !stop_handled(steps)
    }

    /// `steps` are one round of the run loop from `self` to `after`: reports,
    /// then commands, and last one balancing, unless a `Stop` was handled,
    /// which ends the round on the spot. The loop goes on while no `Stop`
    /// was handled and a worker is working; where it ends without a `Stop`,
    /// the pool is at rest.
    pub open spec fn is_round(self, steps: Seq<Step<In>>, after: Self, go_on: bool) -> bool {
        &&& self.run(steps) == after
        &&& if stop_handled(steps) {
            reports_and_commands(steps) && reports_come_first(steps) && stop_is_last(steps)
        } else {
            &&& steps.len() > 0
            &&& steps.last() is Balance
            &&& reports_and_commands(steps.drop_last())
            &&& reports_come_first(steps.drop_last())
        }
        &&& go_on == (!stop_handled(steps) && after.working())
        &&& !go_on ==> stop_handled(steps) || after.at_rest()
    }

    /// Every balancing among the first `upto` steps left a worker working:
    /// the loop went on behind it.
    pub open spec fn went_on(self, steps: Seq<Step<In>>, upto: int) -> bool {
        forall|i: int|
            0 <= i < upto && (#[trigger] steps[i]) is Balance ==> self.run(steps.take(i + 1)).working()
    }

    /// `steps` are `done` whole rounds of the run loop from `self` to `now`,
    /// none of which has ended the run: each ends in its balancing and
    /// leaves a worker working, and no `Stop` was handled.
    pub open spec fn in_progress(self, steps: Seq<Step<In>>, now: Self, done: nat) -> bool {
        &&& self.run(steps) == now
        &&& loop_steps(steps)
        &&& !stop_handled(steps)
        &&& steps.len() > 0 ==> steps.last() is Balance
        &&& self.went_on(steps, steps.len() as int)
        &&& balancings(steps) == done
    }

    /// `steps` are a run of the loop from `self` to `after`, of at most
    /// `max_ticks` rounds.
    ///
    /// The steps are whole rounds in a row: reports and commands, each round
    /// closed by its one balancing. Only the last round may be closed by a
    /// `Stop` instead, and nothing stands behind a `Stop`. A round follows
    /// another only where the balancing left a worker working.
    ///
    /// The run has `finished` if its last round handled a `Stop` or left no
    /// worker working; in the second case the pool is at rest. A run that has
    /// not finished has made all its `max_ticks` rounds, and if that is any,
    /// a worker is still working.
    pub open spec fn is_run(
        self,
        steps: Seq<Step<In>>,
        after: Self,
        finished: bool,
        max_ticks: nat,
    ) -> bool {
        &&& self.run(steps) == after
        &&& loop_steps(steps)
        &&& stop_is_last(steps)
        &&& steps.len() > 0 ==> steps.last() is Balance || stop_handled(steps)
        &&& self.went_on(steps, steps.len() - 1)
        &&& rounds(steps) <= max_ticks
        &&& finished == (stop_handled(steps) || (steps.len() > 0 && !after.working()))
        &&& finished ==> stop_handled(steps) || after.at_rest()
        &&& !finished ==> balancings(steps) == max_ticks && (max_ticks > 0 ==> after.working())
    }
}

} // verus!

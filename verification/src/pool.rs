//! A channels-oriented worker pool for long-running jobs that all write to one
//! output channel. The number of workers is a target that the pool approaches
//! by one start or one stop request per tick.

use vstd::prelude::*;
use std::collections::VecDeque;
use crate::pool::channels::bus;
use crate::pool::channels::bus_handle;
use crate::pool::channels::bus_len;
use crate::pool::channels::bus_send;
use crate::pool::channels::bus_take;
use crate::pool::channels::lane;
use crate::pool::channels::lane_len;
use crate::pool::channels::lane_receiver;
use crate::pool::channels::lane_send;
use crate::pool::channels::lane_sender;
use crate::pool::channels::lane_take;
use crate::pool::channels::spawn_reporting;
use crate::pool::laws::balanced_and_idle_is_at_rest;
use crate::pool::laws::one_more_step;
use crate::pool::laws::reports_alone_come_first;
use crate::pool::laws::round_joins_run;
use crate::pool::laws::rounds_in_progress_are_a_run;
use crate::pool::model::only_reports;
use crate::pool::model::reports_come_first;
use crate::pool::model::reports_and_commands;
use crate::pool::model::stop_handled;
use crate::pool::model::PoolView;
use crate::pool::model::Step;

pub mod channels;
pub mod laws;
pub mod model;

verus! {

/// What a finished worker reports to the pool.
#[derive(Debug, Copy, Clone, PartialEq, Eq, Structural)]
pub enum WorkerEvent {
    /// The job ran out of work by itself.
    WorkerDone,
    /// The job saw a stop request and left early.
    WorkerStopped,
}

/// What a supervisor may ask of a running pool.
#[derive(Debug, Copy, Clone, PartialEq, Eq, Structural)]
pub enum WorkerPoolCommand {
    /// Leave the run loop.
    Stop,
    /// Aim for this many workers; zero counts as one.
    SetWorkerCount(usize),
}

/// How a job ended. `Running` is no ending: a job that returns it is faulty.
#[derive(Debug, Copy, Clone, PartialEq, Eq, Structural)]
pub enum JobStatus {
    Done,
    Stopped,
    Running,
}

impl JobStatus {
    /// The event by which a worker reports this ending. A job never ends as
    /// `Running`.
    pub fn event(self) -> (event: WorkerEvent)
        requires
            !(self is Running),
        ensures
            event == (if self is Done {
                WorkerEvent::WorkerDone
            } else {
                WorkerEvent::WorkerStopped
            }),
    {
        match self {
            JobStatus::Done => WorkerEvent::WorkerDone,
            JobStatus::Stopped => WorkerEvent::WorkerStopped,
            JobStatus::Running => unreached(),
        }
    }
}

/// What a worker's task does when its job has ended: it tells the pool how.
/// A pool that is gone is told nothing.
pub fn report(events: &crossbeam_channel::Sender<WorkerEvent>, status: JobStatus)
    requires
        !(status is Running),
{
    let _ = bus_send(events, status.event());
}

/// One unit of work as a worker sees it: the input item, the receiver on
/// which the pool asks it to stop, and the sender for its results.
#[verifier::reject_recursive_types(Out)]
pub struct Job<In, Out> {
    pub task: In,
    pub close: async_std::sync::Receiver<()>,
    pub results: async_std::sync::Sender<Out>,
}

impl<In, Out> Job<In, Out> {
    pub fn new(
        task: In,
        close: async_std::sync::Receiver<()>,
        results: async_std::sync::Sender<Out>,
    ) -> (job: Self)
        ensures
            job.task == task,
            job.close == close,
            job.results == results,
    {
        Self { task, close, results }
    }

    /// Whether the pool has asked for a worker to stop. The answer comes
    /// without waiting, and a `true` uses the request up: one request stops
    /// one worker.
    pub fn stop_requested(&self) -> (stop: bool) {
        lane_take(&self.close).is_some()
    }
}

/// A pool of workers that run one job function on queued items and send what
/// they produce to one output channel, in the order in which it arrives.
#[verifier::reject_recursive_types(In)]
#[verifier::reject_recursive_types(Out)]
#[verifier::reject_recursive_types(F)]
pub struct WorkerPool<In, Out, F> {
    /// How many workers we want.
    num_workers: usize,
    /// How many workers were started and have not reported back.
    cur_workers: usize,
    /// Items waiting for a worker.
    queue: VecDeque<In>,
    /// Where the results go.
    output: async_std::sync::Sender<Out>,
    /// Makes the job that a worker runs on an item.
    task: F,
    /// Collects the workers' results.
    results_channel: (async_std::sync::Sender<Out>, async_std::sync::Receiver<Out>),
    /// Carries stop requests to the workers.
    close_channel: (async_std::sync::Sender<()>, async_std::sync::Receiver<()>),
    /// Unbounded buses for worker reports and commands, read every tick.
    worker_events: (crossbeam_channel::Sender<WorkerEvent>, crossbeam_channel::Receiver<WorkerEvent>),
    command_events: (
        crossbeam_channel::Sender<WorkerPoolCommand>,
        crossbeam_channel::Receiver<WorkerPoolCommand>,
    ),
    /// Stop requests sent and not yet acknowledged.
    outstanding_stops: usize,
}

impl<In, Out, F> View for WorkerPool<In, Out, F> {
    type V = PoolView<In>;

    closed spec fn view(&self) -> PoolView<In> {
        PoolView {
            target: self.num_workers as nat,
            live: self.cur_workers as nat,
            stopping: self.outstanding_stops as nat,
            queue: self.queue@,
        }
    }
}

/// The job function can be called on every job.
pub open spec fn makes_jobs<In, Out, F, W>(task: F) -> bool where
    F: Fn(Job<In, Out>) -> W,
    W: core::future::Future<Output = JobStatus>,
 {
    forall|job: Job<In, Out>| call_requires(task, (job,))
}

impl<In, Out, F, W> WorkerPool<In, Out, F> where
    In: Send + Sync + 'static,
    Out: Send + Sync + 'static,
    F: Fn(Job<In, Out>) -> W,
    W: core::future::Future<Output = JobStatus> + Send + 'static,
 {
    /// The counters are sound and the job function is fit to be called.
    pub closed spec fn wf(&self) -> bool {
        &&& self@.wf()
        &&& makes_jobs::<In, Out, F, W>(self.task)
    }

    /// A well-formed pool has sound counters.
    pub proof fn counters_sound(&self)
        requires
            self.wf(),
        ensures
            self@.wf(),
    {
    }

    /// An idle pool that aims for `num_workers` workers. The pool's channels
    /// for results and stop requests hold `num_workers` messages, so the count
    /// is not zero.
    pub fn new(task: F, output: async_std::sync::Sender<Out>, num_workers: usize) -> (pool: Self)
        requires
            num_workers > 0,
            makes_jobs::<In, Out, F, W>(task),
        ensures
            pool.wf(),
            pool@ == (PoolView::<In> {
                target: num_workers as nat,
                live: 0,
                stopping: 0,
                queue: Seq::empty(),
            }),
    {
        Self {
            task,
            output,
            num_workers,
            cur_workers: 0,
            results_channel: lane(num_workers),
            close_channel: lane(num_workers),
            worker_events: bus(),
            command_events: bus(),
            queue: VecDeque::with_capacity(num_workers),
            outstanding_stops: 0,
        }
    }

    /// Number of workers currently working: those started and not yet told to
    /// stop.
    pub fn cur_workers(&self) -> (n: usize)
        requires
            self.wf(),
        ensures
            n == self@.effective(),
    {
        self.cur_workers - self.outstanding_stops
    }

    /// Target number of workers.
    pub fn target_workers(&self) -> (n: usize)
        ensures
            n == self@.target,
    {
        self.num_workers
    }

    /// Whether the effective number of workers is the target number.
    pub fn at_target_worker_count(&self) -> (at: bool)
        requires
            self.wf(),
        ensures
            at == self@.at_target(),
    {
        self.cur_workers() == self.target_workers()
    }

    pub fn working(&self) -> (working: bool)
        requires
            self.wf(),
        ensures
            working == self@.working(),
    {
        self.cur_workers() > 0
    }

    /// Sets the target number of workers. Takes effect at the next balancing
    /// and does not stop workers in progress.
    pub fn set_target_workers(&mut self, n: usize)
        requires
            old(self).wf(),
        ensures
            final(self).wf(),
            final(self)@ == old(self)@.with_target(n as nat),
    {
        self.num_workers = n;
    }

    /// Adds an item to the back of the queue.
    pub fn push(&mut self, task: In)
        requires
            old(self).wf(),
        ensures
            final(self).wf(),
            final(self)@ == old(self)@.after_push(task),
    {
        self.queue.push_back(task);
    }

    /// Takes a result that a worker has delivered, if one is there, past the
    /// output channel. The bookkeeping is not touched.
    pub fn try_next(&mut self) -> (next: Option<Out>)
        requires
            old(self).wf(),
        ensures
            final(self).wf(),
            final(self)@ == old(self)@,
    {
        lane_take(&self.results_channel.1)
    }

    /// The sending half of the pool's command channel.
    pub closed spec fn command_sender(&self) -> crossbeam_channel::Sender<WorkerPoolCommand> {
        self.command_events.0
    }

    /// A handle through which commands reach the pool from outside its run
    /// loop: the pool's own command sender, once more.
    pub fn command_channel(&self) -> (handle: crossbeam_channel::Sender<WorkerPoolCommand>)
        ensures
            handle == self.command_sender(),
    {
        bus_handle(&self.command_events.0)
    }

    /// Books one worker's report.
    pub fn handle_event(&mut self, event: WorkerEvent)
        requires
            old(self).wf(),
        ensures
            final(self).wf(),
            final(self)@ == old(self)@.after_event(event),
    {
        if self.cur_workers == 0 {
            return ;
        }
        match event {
            WorkerEvent::WorkerDone => {
                if self.outstanding_stops == self.cur_workers {
                    self.outstanding_stops -= 1;
                }
            },
            WorkerEvent::WorkerStopped => {
                if self.outstanding_stops > 0 {
                    self.outstanding_stops -= 1;
                }
            },
        }
        self.cur_workers -= 1;
    }

    /// Carries out one command. Says whether the pool is to go on: `Stop` ends
    /// the run, `SetWorkerCount(n)` retargets to `n`, or to one where `n` is
    /// zero.
    pub fn handle_command(&mut self, command: WorkerPoolCommand) -> (go_on: bool)
        requires
            old(self).wf(),
        ensures
            final(self).wf(),
            final(self)@ == old(self)@.after_command(command),
            go_on == !(command is Stop),
    {
        match command {
            WorkerPoolCommand::Stop => false,
            WorkerPoolCommand::SetWorkerCount(n) => {
                self.num_workers = if n == 0 {
                    1
                } else {
                    n
                };
                true
            },
        }
    }

    /// Books the reports and carries out the commands that have come in. Says
    /// whether the pool is to go on: not after a `Stop`, which also leaves
    /// the commands behind it unread.
    pub fn event_loop(&mut self) -> (go_on: bool)
        requires
            old(self).wf(),
        ensures
            final(self).wf(),
            exists|steps: Seq<Step<In>>| #[trigger]
                old(self)@.is_booking(steps, final(self)@, go_on),
    {
        let ghost mut steps: Seq<Step<In>> = Seq::empty();
        let reports = bus_len(&self.worker_events.1);
        let mut seen: usize = 0;
        while seen < reports
            invariant
                self.wf(),
                old(self)@.run(steps) == self@,
                reports_and_commands(steps),
                only_reports(steps),
                !stop_handled(steps),
            decreases reports - seen,
        {
            match bus_take(&self.worker_events.1) {
                Some(event) => {
                    proof {
                        one_more_step(old(self)@, steps, Step::Event(event));
                        steps = steps.push(Step::Event(event));
                    }
                    self.handle_event(event);
                },
                None => {
                    break ;
                },
            }
            seen += 1;
        }
        proof {
            reports_alone_come_first(steps);
        }
        let commands = bus_len(&self.command_events.1);
        let mut read: usize = 0;
        while read < commands
            invariant
                self.wf(),
                old(self)@.run(steps) == self@,
                reports_and_commands(steps),
                reports_come_first(steps),
                !stop_handled(steps),
            decreases commands - read,
        {
            match bus_take(&self.command_events.1) {
                Some(command) => {
                    proof {
                        one_more_step(old(self)@, steps, Step::Command(command));
                        steps = steps.push(Step::Command(command));
                    }
                    if !self.handle_command(command) {
                        assert(old(self)@.is_booking(steps, self@, false));
                        return false;
                    }
                },
                None => {
                    break ;
                },
            }
            read += 1;
        }
        assert(old(self)@.is_booking(steps, self@, true));
        true
    }

    /// Passes the results that the workers have delivered on to the output
    /// channel, in the order of their arrival. Each send waits for room in
    /// the output channel, so a slow consumer slows the pool.
    pub fn flush_output(&mut self)
        requires
            old(self).wf(),
        ensures
            final(self).wf(),
            final(self)@ == old(self)@,
    {
        let ready = lane_len(&self.results_channel.1);
        let mut passed: usize = 0;
        while passed < ready
            invariant
                self.wf(),
                self@ == old(self)@,
            decreases ready - passed,
        {
            match lane_take(&self.results_channel.1) {
                Some(out) => {
                    lane_send(&self.output, out);
                },
                None => {
                    break ;
                },
            }
            passed += 1;
        }
    }

    /// Starts a worker on the oldest queued item, if there is one and the
    /// live counter has room.
    fn start_worker(&mut self)
        requires
            old(self).wf(),
        ensures
            final(self).wf(),
            final(self)@ == (if old(self)@.queue.len() > 0 && old(self)@.live < usize::MAX {
                old(self)@.after_start()
            } else {
                old(self)@
            }),
    {
        if self.queue.len() == 0 || self.cur_workers == usize::MAX {
            return ;
        }
        let task = self.queue.pop_front().unwrap();
        let work_send = lane_sender(&self.results_channel.0);
        let close_recv = lane_receiver(&self.close_channel.1);
        let event_send = bus_handle(&self.worker_events.0);
        let job = Job::new(task, close_recv, work_send);
        let work = (self.task)(job);
        spawn_reporting(work, event_send);
        self.cur_workers += 1;
    }

    /// Asks one worker to stop. The worker that takes the request leaves by
    /// itself; none is killed.
    fn send_stop_work_message(&mut self)
        requires
            old(self).wf(),
            old(self)@.stopping < old(self)@.live,
        ensures
            final(self).wf(),
            final(self)@ == old(self)@.after_stop(),
    {
        self.outstanding_stops += 1;
        lane_send(&self.close_channel.0, ());
    }

    /// Moves one step towards the target: starts one worker where the
    /// effective count is below it and work is queued, asks one worker to
    /// stop where the count is above it.
    pub fn balance_workers(&mut self)
        requires
            old(self).wf(),
        ensures
            final(self).wf(),
            final(self)@ == old(self)@.after_balance(),
    {
        if self.cur_workers() < self.target_workers() {
            self.start_worker();
        } else if self.cur_workers() > self.target_workers() {
            self.send_stop_work_message();
        }
    }

    /// One round of the run loop: flush the results, book reports and carry
    /// out commands, balance once. Says whether another round is due: not
    /// after a `Stop`, which also skips the balancing, and not once no
    /// worker is working, when the pool is at rest.
    pub fn tick(&mut self) -> (go_on: bool)
        requires
            old(self).wf(),
        ensures
            final(self).wf(),
            exists|steps: Seq<Step<In>>| #[trigger]
                old(self)@.is_round(steps, final(self)@, go_on),
    {
        self.flush_output();
        let ghost before = self@;
        if !self.event_loop() {
            proof {
                let steps = choose|steps: Seq<Step<In>>| #[trigger]
                    before.is_booking(steps, self@, false);
                assert(before.is_round(steps, self@, false));
            }
            return false;
        }
        let ghost booked = self@;
        self.balance_workers();
        let go_on = self.working();
        proof {
            let steps = choose|steps: Seq<Step<In>>| #[trigger]
                before.is_booking(steps, booked, true);
            one_more_step(before, steps, Step::Balance);
            balanced_and_idle_is_at_rest(booked);
            assert(steps.push(Step::Balance).drop_last() =~= steps);
            assert(before.is_round(steps.push(Step::Balance), self@, go_on));
        }
        go_on
    }

    /// Runs the pool for at most `max_ticks` rounds. Says whether the run has
    /// ended, by a `Stop` or because the pool has come to rest, rather than
    /// run out of rounds.
    pub fn work_for(&mut self, max_ticks: u64) -> (finished: bool)
        requires
            old(self).wf(),
        ensures
            final(self).wf(),
            exists|steps: Seq<Step<In>>| #[trigger]
                old(self)@.is_run(steps, final(self)@, finished, max_ticks as nat),
    {
        let ghost mut steps: Seq<Step<In>> = Seq::empty();
        let mut ticks: u64 = 0;
        while ticks < max_ticks
            invariant
                self.wf(),
                ticks <= max_ticks,
                old(self)@.in_progress(steps, self@, ticks as nat),
            decreases max_ticks - ticks,
        {
            let ghost before = self@;
            let go_on = self.tick();
            proof {
                let round = choose|round: Seq<Step<In>>| #[trigger]
                    before.is_round(round, self@, go_on);
                round_joins_run(
                    old(self)@,
                    steps,
                    before,
                    round,
                    self@,
                    go_on,
                    ticks as nat,
                    max_ticks as nat,
                );
                steps = steps + round;
            }
            if !go_on {
                return true;
            }
            ticks += 1;
        }
        proof {
            rounds_in_progress_are_a_run(old(self)@, steps, self@, max_ticks as nat);
        }
        false
    }

    /// Runs the pool to its end: round after round until a `Stop` is handled
    /// or the pool has come to rest. The rounds are counted, and the run is
    /// given up, with `false`, after `u64::MAX` of them.
    pub fn work(&mut self) -> (finished: bool)
        requires
            old(self).wf(),
        ensures
            final(self).wf(),
            exists|steps: Seq<Step<In>>| #[trigger]
                old(self)@.is_run(steps, final(self)@, finished, u64::MAX as nat),
    {
        self.work_for(u64::MAX)
    }
}

} // verus!

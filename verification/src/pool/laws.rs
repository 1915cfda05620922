//! What holds of every pool, whatever the workers and the supervisor do.

use vstd::prelude::*;
use crate::pool::WorkerPoolCommand;
use crate::pool::model::balances;
use crate::pool::model::balancings;
use crate::pool::model::keeps_target;
use crate::pool::model::loop_steps;
use crate::pool::model::no_push;
use crate::pool::model::only_reports;
use crate::pool::model::normalized;
use crate::pool::model::peak_target;
use crate::pool::model::pushed;
use crate::pool::model::reports_and_commands;
use crate::pool::model::reports_come_first;
use crate::pool::model::rounds;
use crate::pool::model::stop_handled;
use crate::pool::model::stop_is_last;
use crate::pool::model::stop_step;
use crate::pool::model::PoolView;
use crate::pool::model::Step;

verus! {

pub open spec fn larger(a: nat, b: nat) -> nat {
    if a >= b {
        a
    } else {
        b
    }
}

/// A single step keeps a sound state sound.
pub proof fn step_keeps_counters_sound<In>(v: PoolView<In>, step: Step<In>)
    requires
        v.wf(),
    ensures
        v.after_step(step).wf(),
{
}

/// The effective worker count never drops below zero: after any sequence of
/// pushes, worker reports, commands, new targets and balancings, the
/// outstanding stops do not exceed the live workers, so their difference is
/// the effective count.
pub proof fn effective_count_never_negative<In>(v: PoolView<In>, steps: Seq<Step<In>>)
    requires
        v.wf(),
    ensures
        v.run(steps).wf(),
        v.run(steps).stopping <= v.run(steps).live,
        v.run(steps).effective() == v.run(steps).live - v.run(steps).stopping,
    decreases steps.len(),
{
    if steps.len() > 0 {
        effective_count_never_negative(v, steps.drop_last());
        step_keeps_counters_sound(v.run(steps.drop_last()), steps.last());
    }
}

/// Every item is handed to at most one worker, in queue order, and none is
/// lost: the items started during a run, followed by those still queued, are
/// exactly the items queued at first followed by those pushed since.
pub proof fn items_start_once_in_order<In>(v: PoolView<In>, steps: Seq<Step<In>>)
    ensures
        v.started(steps) + v.run(steps).queue == v.queue + pushed(steps),
    decreases steps.len(),
{
    if steps.len() == 0 {
        assert(v.started(steps) + v.run(steps).queue =~= v.queue + pushed(steps));
    } else {
        let init = steps.drop_last();
        items_start_once_in_order(v, init);
        let before = v.run(init);
        let earlier = v.started(init);
        assert(earlier + before.queue == v.queue + pushed(init));
        match steps.last() {
            Step::Push(item) => {
                assert(earlier + before.queue.push(item) =~= (earlier + before.queue).push(item));
                assert(v.queue + pushed(init).push(item) =~= (v.queue + pushed(init)).push(item));
            },
            Step::Balance => {
                if before.starts() {
                    assert(earlier.push(before.queue[0]) + before.queue.drop_first() =~= earlier
                        + before.queue);
                }
            },
            Step::Event(_) => {},
            Step::Command(_) => {},
            Step::Retarget(_) => {},
        }
    }
}

/// Without pushes a run only takes items from the front of the queue: what
/// was started and what is left make up the queue as it was.
pub proof fn queue_splits_into_started_and_waiting<In>(v: PoolView<In>, steps: Seq<Step<In>>)
    requires
        no_push(steps),
    ensures
        v.started(steps) + v.run(steps).queue == v.queue,
        v.run(steps).queue.len() <= v.queue.len(),
{
    items_start_once_in_order(v, steps);
    nothing_pushed(steps);
    assert(v.queue + Seq::<In>::empty() =~= v.queue);
}

proof fn nothing_pushed<In>(steps: Seq<Step<In>>)
    requires
        no_push(steps),
    ensures
        pushed(steps) == Seq::<In>::empty(),
    decreases steps.len(),
{
    if steps.len() > 0 {
        assert(steps[steps.len() - 1] == steps.last());
        assert forall|i: int| 0 <= i < steps.drop_last().len() implies !(
        #[trigger] steps.drop_last()[i] is Push) by {
            assert(steps.drop_last()[i] == steps[i]);
        }
        nothing_pushed(steps.drop_last());
    }
}

/// The target in force after a run is one of those that the run has seen.
pub proof fn target_within_peak<In>(v: PoolView<In>, steps: Seq<Step<In>>)
    ensures
        v.run(steps).target <= peak_target(v.target, steps),
        v.target <= peak_target(v.target, steps),
    decreases steps.len(),
{
    if steps.len() > 0 {
        target_within_peak(v, steps.drop_last());
    }
}

/// Balancing never takes the effective count above the target: after any run
/// the effective count is at most the larger of what it was at first and the
/// largest target that was in force since. Starting from an idle pool it
/// never exceeds the largest target.
pub proof fn effective_count_bounded<In>(v: PoolView<In>, steps: Seq<Step<In>>)
    requires
        v.wf(),
    ensures
        v.run(steps).effective() <= larger(v.effective(), peak_target(v.target, steps)),
        v.effective() == 0 ==> v.run(steps).effective() <= peak_target(v.target, steps),
    decreases steps.len(),
{
    if steps.len() > 0 {
        let init = steps.drop_last();
        effective_count_bounded(v, init);
        effective_count_never_negative(v, init);
        target_within_peak(v, init);
        target_within_peak(v, steps);
    }
}

/// While the target stays as it is, a pool that is within it stays within it:
/// the effective count never exceeds the target.
pub proof fn effective_count_within_a_kept_target<In>(v: PoolView<In>, steps: Seq<Step<In>>)
    requires
        v.wf(),
        v.effective() <= v.target,
        keeps_target(steps),
    ensures
        v.run(steps).target == v.target,
        v.run(steps).effective() <= v.target,
    decreases steps.len(),
{
    if steps.len() > 0 {
        let init = steps.drop_last();
        assert(steps[steps.len() - 1] == steps.last());
        assert forall|i: int| 0 <= i < init.len() implies !(#[trigger] init[i] is Retarget) && !(
        init[i] matches Step::Command(WorkerPoolCommand::SetWorkerCount(_))) by {
            assert(init[i] == steps[i]);
        }
        effective_count_within_a_kept_target(v, init);
        effective_count_never_negative(v, init);
    }
}

/// One balancing moves the effective count by at most one, and towards the
/// target: a start happens only below it and a stop only above it.
pub proof fn balance_moves_one_towards_target<In>(v: PoolView<In>)
    requires
        v.wf(),
    ensures
        v.after_balance().target == v.target,
        v.effective() < v.target ==> v.effective() <= v.after_balance().effective() <= v.effective()
            + 1 && v.after_balance().effective() <= v.target,
        v.effective() > v.target ==> v.after_balance().effective() == v.effective() - 1,
        v.effective() == v.target ==> v.after_balance() == v,
{
}

/// Asking again for the same worker count changes nothing, and once the pool
/// has reached that count, balancing has nothing left to do either.
pub proof fn set_worker_count_idempotent<In>(v: PoolView<In>, n: usize)
    ensures
        ({
            let once = v.after_command(WorkerPoolCommand::SetWorkerCount(n));
            let twice = once.after_command(WorkerPoolCommand::SetWorkerCount(n));
            &&& twice == once
            &&& once.at_target() ==> twice.after_balance() == once
        }),
{
}

/// A request for zero workers is a request for one.
pub proof fn zero_workers_means_one<In>(v: PoolView<In>)
    ensures
        v.after_command(WorkerPoolCommand::SetWorkerCount(0)) == v.after_command(
            WorkerPoolCommand::SetWorkerCount(1),
        ),
        v.after_command(WorkerPoolCommand::SetWorkerCount(0)).target == 1,
{
}

/// No command drives the target to zero.
pub proof fn commanded_target_is_positive<In>(v: PoolView<In>, n: usize)
    ensures
        v.after_command(WorkerPoolCommand::SetWorkerCount(n)).target >= 1,
        v.after_command(WorkerPoolCommand::SetWorkerCount(n)).target == normalized(n),
{
}

/// Running one sequence of steps and then another is running both in a row.
pub proof fn run_in_two_parts<In>(v: PoolView<In>, first: Seq<Step<In>>, second: Seq<Step<In>>)
    ensures
        v.run(first).run(second) == v.run(first + second),
    decreases second.len(),
{
    if second.len() == 0 {
        assert(first + second =~= first);
    } else {
        run_in_two_parts(v, first, second.drop_last());
        assert((first + second).drop_last() =~= first + second.drop_last());
        assert((first + second).last() == second.last());
    }
}

/// Reports and commands start nothing and leave the queue as it is: items
/// leave the queue only by balancing.
pub proof fn reports_and_commands_start_nothing<In>(v: PoolView<In>, steps: Seq<Step<In>>)
    requires
        reports_and_commands(steps),
    ensures
        v.run(steps).queue == v.queue,
        v.started(steps) == Seq::<In>::empty(),
    decreases steps.len(),
{
    if steps.len() > 0 {
        let init = steps.drop_last();
        assert(steps[steps.len() - 1] == steps.last());
        assert forall|i: int| 0 <= i < init.len() implies (#[trigger] init[i] is Event)
            || init[i] is Command by {
            assert(init[i] == steps[i]);
        }
        reports_and_commands_start_nothing(v, init);
    }
}

/// After balancing, a pool without a working worker has none to start
/// either: it is at rest.
pub proof fn balanced_and_idle_is_at_rest<In>(v: PoolView<In>)
    requires
        v.wf(),
    ensures
        v.after_balance().working() || v.after_balance().at_rest(),
{
}

/// A pool at rest that aims for at least one worker has an empty queue,
/// unless its live counter is full.
pub proof fn at_rest_means_queue_empty<In>(v: PoolView<In>)
    requires
        v.wf(),
        v.at_rest(),
        v.target > 0,
        v.live < usize::MAX,
    ensures
        v.queue.len() == 0,
{
}

/// Every queued item ends up with a worker: when a run without pushes has
/// come to rest, with a target of at least one worker, the items that were
/// started are the whole queue as it was, each once and in order.
pub proof fn run_to_rest_starts_every_item<In>(v: PoolView<In>, steps: Seq<Step<In>>)
    requires
        v.wf(),
        no_push(steps),
        v.run(steps).at_rest(),
        v.run(steps).target > 0,
        v.run(steps).live < usize::MAX,
    ensures
        v.started(steps) == v.queue,
{
    effective_count_never_negative(v, steps);
    at_rest_means_queue_empty(v.run(steps));
    queue_splits_into_started_and_waiting(v, steps);
    assert(v.run(steps).queue =~= Seq::<In>::empty());
    assert(v.started(steps) + Seq::<In>::empty() =~= v.started(steps));
}

/// What one more step at the end of a sequence does to the run and to what
/// is known of the sequence.
pub proof fn one_more_step<In>(v: PoolView<In>, steps: Seq<Step<In>>, step: Step<In>)
    ensures
        v.run(steps.push(step)) == v.run(steps).after_step(step),
        no_push(steps) && !(step is Push) ==> no_push(steps.push(step)),
        reports_and_commands(steps) && (step is Event || step is Command) ==> reports_and_commands(
            steps.push(step),
        ),
        loop_steps(steps) && (step is Event || step is Command || step is Balance) ==> loop_steps(
            steps.push(step),
        ),
        stop_handled(steps.push(step)) <==> stop_handled(steps) || step == Step::<In>::Command(
            WorkerPoolCommand::Stop,
        ),
        !stop_handled(steps) ==> stop_is_last(steps.push(step)),
        only_reports(steps) && step is Event ==> only_reports(steps.push(step)),
        reports_come_first(steps) && step is Command ==> reports_come_first(steps.push(step)),
        balancings(steps.push(step)) == balancings(steps) + (if step is Balance {
            1nat
        } else {
            0nat
        }),
{
    let longer = steps.push(step);
    if only_reports(steps) && step is Event {
        assert forall|i: int| 0 <= i < longer.len() implies (#[trigger] longer[i]) is Event by {
            if i < steps.len() {
                assert(longer[i] == steps[i]);
            }
        }
    }
    if reports_come_first(steps) && step is Command {
        assert forall|i: int, j: int|
            0 <= i < j < longer.len() && (#[trigger] longer[i]) is Command implies (
        #[trigger] longer[j]) is Command by {
            assert(longer[i] == steps[i]);
            if j < steps.len() {
                assert(longer[j] == steps[j]);
            }
        }
    }
    if loop_steps(steps) && (step is Event || step is Command || step is Balance) {
        assert forall|i: int| 0 <= i < longer.len() implies (#[trigger] longer[i] is Event)
            || longer[i] is Command || longer[i] is Balance by {
            if i < steps.len() {
                assert(longer[i] == steps[i]);
            }
        }
    }
    assert(longer.drop_last() =~= steps);
    assert(longer.last() == step);
    assert(longer[steps.len() as int] == step);
    if stop_handled(steps) {
        let i = choose|i: int|
            0 <= i < steps.len() && #[trigger] steps[i] == Step::<In>::Command(
                WorkerPoolCommand::Stop,
            );
        assert(longer[i] == steps[i]);
    }
    if stop_handled(longer) {
        let i = choose|i: int|
            0 <= i < longer.len() && #[trigger] longer[i] == Step::<In>::Command(
                WorkerPoolCommand::Stop,
            );
        if i < steps.len() {
            assert(steps[i] == longer[i]);
        }
    }
    if no_push(steps) && !(step is Push) {
        assert forall|i: int| 0 <= i < longer.len() implies !(#[trigger] longer[i] is Push) by {
            if i < steps.len() {
                assert(longer[i] == steps[i]);
            }
        }
    }
    if reports_and_commands(steps) && (step is Event || step is Command) {
        assert forall|i: int| 0 <= i < longer.len() implies (#[trigger] longer[i] is Event)
            || longer[i] is Command by {
            if i < steps.len() {
                assert(longer[i] == steps[i]);
            }
        }
    }
}

/// Where there are only reports, they are reports and commands with the
/// reports first and no `Stop`.
pub proof fn reports_alone_come_first<In>(steps: Seq<Step<In>>)
    requires
        only_reports(steps),
    ensures
        reports_and_commands(steps),
        reports_come_first(steps),
        !stop_handled(steps),
{
}

/// What is known of two sequences of steps is known of the two in a row.
pub proof fn steps_in_a_row<In>(first: Seq<Step<In>>, second: Seq<Step<In>>)
    ensures
        no_push(first) && no_push(second) ==> no_push(first + second),
        loop_steps(first) && loop_steps(second) ==> loop_steps(first + second),
        stop_handled(first + second) <==> stop_handled(first) || stop_handled(second),
        balancings(first + second) == balancings(first) + balancings(second),
{
    balancings_add(first, second);
    let both = first + second;
    if loop_steps(first) && loop_steps(second) {
        assert forall|i: int| 0 <= i < both.len() implies (#[trigger] both[i] is Event)
            || both[i] is Command || both[i] is Balance by {
            if i < first.len() {
                assert(both[i] == first[i]);
            } else {
                assert(both[i] == second[i - first.len()]);
            }
        }
    }
    if stop_handled(first) {
        let i = choose|i: int|
            0 <= i < first.len() && #[trigger] first[i] == Step::<In>::Command(
                WorkerPoolCommand::Stop,
            );
        assert(both[i] == first[i]);
    }
    if stop_handled(second) {
        let i = choose|i: int|
            0 <= i < second.len() && #[trigger] second[i] == Step::<In>::Command(
                WorkerPoolCommand::Stop,
            );
        assert(both[first.len() + i] == second[i]);
    }
    if stop_handled(both) {
        let i = choose|i: int|
            0 <= i < both.len() && #[trigger] both[i] == Step::<In>::Command(
                WorkerPoolCommand::Stop,
            );
        if i < first.len() {
            assert(first[i] == both[i]);
        } else {
            assert(second[i - first.len()] == both[i]);
        }
    }
    if no_push(first) && no_push(second) {
        assert forall|i: int| 0 <= i < both.len() implies !(#[trigger] both[i] is Push) by {
            if i < first.len() {
                assert(both[i] == first[i]);
            } else {
                assert(both[i] == second[i - first.len()]);
            }
        }
    }
}

/// The run loop puts nothing in the queue, and reports and commands are
/// among its steps.
pub proof fn loop_steps_push_nothing<In>(steps: Seq<Step<In>>)
    ensures
        loop_steps(steps) ==> no_push(steps),
        reports_and_commands(steps) ==> loop_steps(steps),
{
    if loop_steps(steps) {
        assert forall|i: int| 0 <= i < steps.len() implies !(#[trigger] steps[i] is Push) by {
            assert(steps[i] is Event || steps[i] is Command || steps[i] is Balance);
        }
    }
    if reports_and_commands(steps) {
        assert forall|i: int| 0 <= i < steps.len() implies (#[trigger] steps[i] is Event)
            || steps[i] is Command || steps[i] is Balance by {
            assert(steps[i] is Event || steps[i] is Command);
        }
    }
}

proof fn balancings_add<In>(first: Seq<Step<In>>, second: Seq<Step<In>>)
    ensures
        balancings(first + second) == balancings(first) + balancings(second),
    decreases second.len(),
{
    if second.len() == 0 {
        assert(first + second =~= first);
    } else {
        balancings_add(first, second.drop_last());
        assert((first + second).drop_last() =~= first + second.drop_last());
        assert((first + second).last() == second.last());
    }
}

/// Reports and commands hold no balancing, and steps of the run loop without
/// a balancing are reports and commands.
pub proof fn reports_and_commands_hold_no_balancing<In>(steps: Seq<Step<In>>)
    ensures
        reports_and_commands(steps) <==> loop_steps(steps) && balancings(steps) == 0,
    decreases steps.len(),
{
    loop_steps_push_nothing(steps);
    if steps.len() > 0 {
        let init = steps.drop_last();
        assert(steps[steps.len() - 1] == steps.last());
        reports_and_commands_hold_no_balancing(init);
        loop_steps_push_nothing(init);
        if reports_and_commands(steps) {
            assert forall|i: int| 0 <= i < init.len() implies (#[trigger] init[i] is Event)
                || init[i] is Command by {
                assert(init[i] == steps[i]);
            }
        }
        if loop_steps(steps) && balancings(steps) == 0 {
            assert forall|i: int| 0 <= i < init.len() implies (#[trigger] init[i] is Event)
                || init[i] is Command || init[i] is Balance by {
                assert(init[i] == steps[i]);
            }
            assert forall|i: int| 0 <= i < steps.len() implies (#[trigger] steps[i] is Event)
                || steps[i] is Command by {
                if i < init.len() {
                    assert(init[i] == steps[i]);
                }
            }
        }
    }
}

/// What one round is made of: steps of the run loop with a `Stop`, if any, at
/// the end, and one balancing, at the end as well, unless a `Stop` was
/// handled.
pub proof fn round_has_one_balancing<In>(
    v: PoolView<In>,
    round: Seq<Step<In>>,
    after: PoolView<In>,
    go_on: bool,
)
    requires
        v.is_round(round, after, go_on),
    ensures
        round.len() > 0,
        loop_steps(round),
        stop_is_last(round),
        rounds(round) == 1,
        balancings(round) == (if stop_handled(round) {
            0nat
        } else {
            1nat
        }),
        forall|i: int| 0 <= i < round.len() - 1 ==> !((#[trigger] round[i]) is Balance),
{
    if stop_handled(round) {
        reports_and_commands_hold_no_balancing(round);
        assert forall|i: int| 0 <= i < round.len() - 1 implies !((#[trigger] round[i]) is Balance) by {
            assert(round[i] is Event || round[i] is Command);
        }
    } else {
        let init = round.drop_last();
        reports_and_commands_hold_no_balancing(init);
        assert(round =~= init.push(round.last()));
        one_more_step(v, init, round.last());
        assert forall|i: int| 0 <= i < round.len() - 1 implies !((#[trigger] round[i]) is Balance) by {
            assert(init[i] == round[i]);
            assert(init[i] is Event || init[i] is Command);
        }
    }
}

/// A round behind rounds that have not ended the run makes one round more,
/// and if it ends the run, the whole is a finished run.
pub proof fn round_joins_run<In>(
    v: PoolView<In>,
    steps: Seq<Step<In>>,
    mid: PoolView<In>,
    round: Seq<Step<In>>,
    after: PoolView<In>,
    go_on: bool,
    done: nat,
    max_ticks: nat,
)
    requires
        v.in_progress(steps, mid, done),
        mid.is_round(round, after, go_on),
        done < max_ticks,
    ensures
        go_on ==> v.in_progress(steps + round, after, done + 1),
        !go_on ==> v.is_run(steps + round, after, true, max_ticks),
{
    let both = steps + round;
    run_in_two_parts(v, steps, round);
    steps_in_a_row(steps, round);
    round_has_one_balancing(mid, round, after, go_on);
    assert(both.last() == round.last());
    assert(both.take(both.len() as int) =~= both);
    assert forall|i: int| 0 <= i < both.len() && (#[trigger] both[i]) is Balance implies i
        == both.len() - 1 || (i < steps.len() && v.run(both.take(i + 1)).working()) by {
        if i < steps.len() {
            assert(both[i] == steps[i]);
            assert(both.take(i + 1) =~= steps.take(i + 1));
        } else {
            assert(both[i] == round[i - steps.len()]);
        }
    }
    if stop_handled(round) {
        steps_in_a_row(steps, round.drop_last());
        assert(both.drop_last() =~= steps + round.drop_last());
    }
}

/// Rounds that have not ended the run are an unfinished run of so many
/// rounds.
pub proof fn rounds_in_progress_are_a_run<In>(
    v: PoolView<In>,
    steps: Seq<Step<In>>,
    now: PoolView<In>,
    done: nat,
)
    requires
        v.in_progress(steps, now, done),
    ensures
        v.is_run(steps, now, false, done),
{
    if steps.len() > 0 {
        assert(steps[steps.len() - 1] == steps.last());
        assert(steps.take(steps.len() as int) =~= steps);
    }
}

/// A round in which a `Stop` is handled starts no worker: the queue is as it
/// was.
pub proof fn stopped_round_starts_nothing<In>(
    v: PoolView<In>,
    steps: Seq<Step<In>>,
    after: PoolView<In>,
    go_on: bool,
)
    requires
        v.is_round(steps, after, go_on),
        stop_handled(steps),
    ensures
        !go_on,
        after.queue == v.queue,
        v.started(steps) == Seq::<In>::empty(),
{
    reports_and_commands_start_nothing(v, steps);
}

/// What a run of the pool does to the queue: each item that it takes goes to
/// one worker, in queue order, and the others wait. If the run finishes
/// without a `Stop`, aiming for at least one worker, every item has gone to a
/// worker, the queue is empty and no worker is working.
pub proof fn run_starts_each_item_once<In>(
    v: PoolView<In>,
    steps: Seq<Step<In>>,
    after: PoolView<In>,
    finished: bool,
    max_ticks: nat,
)
    requires
        v.wf(),
        v.is_run(steps, after, finished, max_ticks),
    ensures
        after.wf(),
        v.started(steps) + after.queue == v.queue,
        finished && !stop_handled(steps) && after.target > 0 && after.live < usize::MAX
            ==> v.started(steps) == v.queue && after.queue.len() == 0 && !after.working(),
{
    loop_steps_push_nothing(steps);
    effective_count_never_negative(v, steps);
    queue_splits_into_started_and_waiting(v, steps);
    if finished && !stop_handled(steps) && after.target > 0 && after.live < usize::MAX {
        run_to_rest_starts_every_item(v, steps);
    }
}

/// A `Stop` ends the run at once: it is the run's last step, the run has
/// finished, and nothing was balanced, started or retargeted behind it.
pub proof fn stop_ends_the_run<In>(
    v: PoolView<In>,
    steps: Seq<Step<In>>,
    after: PoolView<In>,
    finished: bool,
    max_ticks: nat,
)
    requires
        v.is_run(steps, after, finished, max_ticks),
        stop_handled(steps),
    ensures
        finished,
        steps.len() > 0,
        steps.last() == stop_step::<In>(),
        !stop_handled(steps.drop_last()),
        after == v.run(steps.drop_last()),
        v.started(steps) == v.started(steps.drop_last()),
{
}

/// A `Stop` that is handled in the first round of a run, as one that was
/// sent before the run is, keeps every item from running: no worker is
/// started and the queue is as it was.
pub proof fn run_stopped_in_its_first_round_starts_nothing<In>(
    v: PoolView<In>,
    steps: Seq<Step<In>>,
    after: PoolView<In>,
    finished: bool,
    max_ticks: nat,
)
    requires
        v.is_run(steps, after, finished, max_ticks),
        stop_handled(steps),
        rounds(steps) == 1,
    ensures
        finished,
        after.queue == v.queue,
        v.started(steps) == Seq::<In>::empty(),
{
    reports_and_commands_hold_no_balancing(steps);
    reports_and_commands_start_nothing(v, steps);
}

/// A run that has not finished has made all the rounds that it was given:
/// it handled no `Stop`, balanced once in each round, and a worker is still
/// working.
pub proof fn unfinished_run_made_all_its_rounds<In>(
    v: PoolView<In>,
    steps: Seq<Step<In>>,
    after: PoolView<In>,
    max_ticks: nat,
)
    requires
        v.is_run(steps, after, false, max_ticks),
    ensures
        !stop_handled(steps),
        balancings(steps) == max_ticks,
        rounds(steps) == max_ticks,
        max_ticks > 0 ==> after.working(),
{
}

/// Above the target, stop requests go out one per balancing until the target
/// is met, and none after that: `count` balancings in a row, with no report
/// between them, ask as many workers to stop as the effective count is above
/// the target, but no more than `count`, and change nothing else.
pub proof fn stops_go_out_one_per_round<In>(v: PoolView<In>, count: nat)
    requires
        v.wf(),
        v.effective() >= v.target,
    ensures
        ({
            let above = (v.effective() - v.target) as nat;
            let sent = if count <= above {
                count
            } else {
                above
            };
            v.run(balances(count)) == (PoolView { stopping: v.stopping + sent, ..v })
        }),
    decreases count,
{
    let steps = balances::<In>(count);
    if count == 0 {
        assert(v.run(steps) == v);
    } else {
        let fewer = (count - 1) as nat;
        stops_go_out_one_per_round(v, fewer);
        assert(steps.drop_last() =~= balances::<In>(fewer));
        assert(steps.last() == Step::<In>::Balance);
    }
}

} // verus!

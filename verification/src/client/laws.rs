//! How a plan spreads the slots over time, and what holds of every slot's
//! life.

use vstd::prelude::*;
use vstd::arithmetic::div_mod::lemma_fundamental_div_mod;
use vstd::arithmetic::mul::lemma_mul_is_commutative;
use crate::client::slot::Action;
use crate::client::slot::Outcome;
use crate::client::slot::Phase;
use crate::client::slot::Slot;
use crate::client::tcp::lemma_span_fits;
use crate::client::tcp::spec_tick;
use crate::client::tcp::NANOS_PER_SEC;
use crate::client::tcp::Plan;

verus! {

/// The tick is the whole number of nanoseconds that comes closest to the
/// rate: `rate` ticks fit in a second, and with a tick one nanosecond longer
/// they would not. Where the rate divides a second evenly, `rate` ticks are
/// the second, and requests a tick apart are `rate` requests a second.
pub proof fn tick_fits_the_rate(rate: u32)
    requires
        rate != 0,
    ensures
        spec_tick(rate) * rate <= NANOS_PER_SEC < (spec_tick(rate) + 1) * rate,
        NANOS_PER_SEC as int % rate as int == 0 ==> spec_tick(rate) * rate == NANOS_PER_SEC,
{
    lemma_fundamental_div_mod(NANOS_PER_SEC as int, rate as int);
    let q = NANOS_PER_SEC as int / rate as int;
    assert(q * rate == rate * q && (q + 1) * rate == rate * q + rate) by (nonlinear_arith);
}

/// The place of a slot among all slots of a run, threads taking turns.
pub open spec fn spec_rank(plan: Plan, thread: u32, slot: u32) -> int {
    thread + plan.num_threads * slot
}

/// A slot begins as many ticks after the first as its rank says.
pub proof fn start_offset_is_rank_times_tick(plan: Plan, thread: u32, slot: u32)
    ensures
        plan.spec_start_offset(thread, slot) == plan.spec_thread_gap() * spec_rank(
            plan,
            thread,
            slot,
        ),
{
    let gap = plan.spec_thread_gap();
    let t = plan.num_threads as int;
    let k = slot as int;
    let j = thread as int;
    assert(gap * j + gap * t * k == gap * (j + t * k)) by (nonlinear_arith);
}

/// Each slot has a rank of its own, below the number of slots.
pub proof fn ranks_number_the_slots(plan: Plan, thread: u32, slot: u32, other_thread: u32, other_slot: u32)
    requires
        plan.wf(),
        thread < plan.num_threads,
        slot < plan.conns_per_thread,
        other_thread < plan.num_threads,
        other_slot < plan.conns_per_thread,
    ensures
        0 <= spec_rank(plan, thread, slot) < plan.spec_slots(),
        spec_rank(plan, thread, slot) == spec_rank(plan, other_thread, other_slot) ==> thread
            == other_thread && slot == other_slot,
{
    let t = plan.num_threads as int;
    let a = slot as int;
    let b = other_slot as int;
    assert(t * a + t <= t * plan.conns_per_thread) by (nonlinear_arith)
        requires
            0 <= a < plan.conns_per_thread,
            0 < t,
    ;
    assert(0 <= t * a) by (nonlinear_arith)
        requires
            0 <= a,
            0 < t,
    ;
    if spec_rank(plan, thread, slot) == spec_rank(plan, other_thread, other_slot) {
        assert(a == b) by (nonlinear_arith)
            requires
                thread + t * a == other_thread + t * b,
                0 <= thread < t,
                0 <= other_thread < t,
        ;
    }
}

/// Every rank below the number of slots is that of a slot.
pub proof fn every_rank_has_a_slot(plan: Plan, rank: int) -> (at: (u32, u32))
    requires
        plan.wf(),
        0 <= rank < plan.spec_slots(),
    ensures
        at.0 < plan.num_threads,
        at.1 < plan.conns_per_thread,
        spec_rank(plan, at.0, at.1) == rank,
{
    let t = plan.num_threads as int;
    lemma_fundamental_div_mod(rank, t);
    let q = rank / t;
    let r = rank % t;
    assert(q < plan.conns_per_thread) by (nonlinear_arith)
        requires
            rank == t * q + r,
            0 <= r,
            rank < t * plan.conns_per_thread,
            0 < t,
    ;
    assert(0 <= q) by (nonlinear_arith)
        requires
            rank == t * q + r,
            r < t,
            0 <= rank,
            0 < t,
    ;
    (r as u32, q as u32)
}

/// The staggering spreads the slots evenly over one pacing interval: two
/// different slots are due to begin at least a tick apart, and every slot is
/// due before one pacing interval has passed since the first.
pub proof fn slots_begin_a_tick_apart(plan: Plan, thread: u32, slot: u32, other_thread: u32, other_slot: u32)
    requires
        plan.wf(),
        thread < plan.num_threads,
        slot < plan.conns_per_thread,
        other_thread < plan.num_threads,
        other_slot < plan.conns_per_thread,
        thread != other_thread || slot != other_slot,
    ensures
        plan.spec_start_offset(thread, slot) + plan.spec_thread_gap() <= plan.spec_start_offset(
            other_thread,
            other_slot,
        ) || plan.spec_start_offset(other_thread, other_slot) + plan.spec_thread_gap()
            <= plan.spec_start_offset(thread, slot),
        plan.spec_start_offset(thread, slot) + plan.spec_thread_gap() <= plan.spec_pacing_delay(),
{
    let gap = plan.spec_thread_gap();
    let g = spec_rank(plan, thread, slot);
    let h = spec_rank(plan, other_thread, other_slot);
    let n = plan.spec_slots();
    ranks_number_the_slots(plan, thread, slot, other_thread, other_slot);
    start_offset_is_rank_times_tick(plan, thread, slot);
    start_offset_is_rank_times_tick(plan, other_thread, other_slot);
    if g < h {
        assert(gap * g + gap <= gap * h) by (nonlinear_arith)
            requires
                g + 1 <= h,
                0 <= gap,
        ;
    } else {
        assert(gap * h + gap <= gap * g) by (nonlinear_arith)
            requires
                h + 1 <= g,
                0 <= gap,
        ;
    }
    assert(gap * g + gap <= gap * n) by (nonlinear_arith)
        requires
            g + 1 <= n,
            0 <= gap,
    ;
    assert(gap * plan.conns_per_thread * plan.num_threads == gap * (plan.num_threads
        * plan.conns_per_thread)) by (nonlinear_arith);
}

/// The run's time is up only once it is exceeded: at the deadline itself a
/// slot still begins a request, one nanosecond later it does not.
pub proof fn time_is_up_after_the_deadline(plan: Plan, deadline: u64, now: u64)
    requires
        plan.deadline == Some(deadline),
    ensures
        plan.expired(now) <==> now > deadline,
        !plan.expired(deadline),
        Slot::spec_next_request(plan, deadline).1 is Connect,
        now > deadline ==> Slot::spec_next_request(plan, now).1 is Exit,
{
}

/// Only the run's time ends a slot: a step leaves a slot terminated only if
/// it was so before or the time is up. A connect, write or read that fails
/// ends its iteration and no more.
pub proof fn only_the_deadline_ends_a_slot(slot: Slot, plan: Plan, outcome: Outcome, now: u64)
    ensures
        slot.spec_advance(plan, outcome, now).0.phase is Terminated ==> slot.phase is Terminated
            || plan.expired(now),
        slot.spec_advance(plan, outcome, now).1.action is Exit
            <==> slot.spec_advance(plan, outcome, now).0.phase is Terminated,
{
}

/// A terminated slot stays terminated and asks for nothing but to leave.
pub proof fn terminated_slot_stays(slot: Slot, plan: Plan, outcome: Outcome, now: u64)
    requires
        slot.phase is Terminated,
    ensures
        slot.spec_advance(plan, outcome, now).0 == slot,
        slot.spec_advance(plan, outcome, now).1.action is Exit,
{
}

/// Once the run's time is up, a slot that is waiting terminates at its next
/// step, and one that has a request in hand begins no other.
pub proof fn deadline_ends_a_waiting_slot(slot: Slot, plan: Plan, outcome: Outcome, now: u64)
    requires
        plan.expired(now),
    ensures
        slot.phase is Staggering || slot.phase is Pacing ==> slot.spec_advance(
            plan,
            outcome,
            now,
        ).0.phase is Terminated,
        !(slot.spec_advance(plan, outcome, now).1.action is Connect),
{
}

/// A slot outlives the run's time by one iteration at most: whatever the
/// outcomes, the fourth step after the time is up, if not an earlier one,
/// leaves it terminated.
pub proof fn slot_ends_within_an_iteration(
    slot: Slot,
    plan: Plan,
    outcomes: (Outcome, Outcome, Outcome, Outcome),
    times: (u64, u64, u64, u64),
)
    requires
        plan.expired(times.0),
        times.0 <= times.1 <= times.2 <= times.3,
    ensures
        slot.spec_advance(plan, outcomes.0, times.0).0.spec_advance(
            plan,
            outcomes.1,
            times.1,
        ).0.spec_advance(plan, outcomes.2, times.2).0.spec_advance(
            plan,
            outcomes.3,
            times.3,
        ).0.phase is Terminated,
{
    let first = slot.spec_advance(plan, outcomes.0, times.0).0;
    let second = first.spec_advance(plan, outcomes.1, times.1).0;
    let third = second.spec_advance(plan, outcomes.2, times.2).0;
    assert(plan.expired(times.1) && plan.expired(times.2) && plan.expired(times.3));
    assert(first.phase is Terminated || first.phase is Writing || first.phase is Reading
        || first.phase is Pacing);
    assert(second.phase is Terminated || second.phase is Reading || second.phase is Pacing);
    assert(third.phase is Terminated || third.phase is Pacing);
}

/// The slot began the request that it has in hand, or paces after, while
/// the run's time was not yet up.
pub open spec fn began_in_time(slot: Slot, plan: Plan) -> bool {
    slot.phase is Connecting || slot.phase is Writing || slot.phase is Reading
        || slot.phase is Pacing ==> !plan.expired(slot.request_start)
}

/// No request begins once the run's time is up: a slot is launched with, and
/// every step keeps, a request in hand that began in time. A request may
/// still begin at the very moment at which the time runs out.
pub proof fn requests_begin_in_time(slot: Slot, plan: Plan, outcome: Outcome, now: u64, index: u32)
    ensures
        began_in_time(Slot::spec_launch(plan, index, now).0, plan),
        began_in_time(slot, plan) ==> began_in_time(slot.spec_advance(plan, outcome, now).0, plan),
{
}

/// The time by which the action that a slot waits on is over, if a connect
/// takes no longer than `connect`, a write than `write`, a read than `read`
/// and a pacing sleep is as long as asked.
pub open spec fn spec_due(slot: Slot, plan: Plan, connect: nat, write: nat, read: nat) -> int {
    match slot.phase {
        Phase::Connecting => slot.request_start + connect,
        Phase::Writing => slot.request_start + connect + write,
        Phase::Reading => slot.request_start + connect + write + read,
        Phase::Pacing => slot.request_start + plan.spec_pacing_delay(),
        _ => slot.request_start as int,
    }
}

/// A run outlasts its time by no more than one iteration: whatever a slot
/// with a request in hand waits on is over by the deadline plus the longest
/// that an iteration takes, which is the larger of the three phases together
/// and the pacing delay. The step that follows ends the slot or the
/// iteration.
pub proof fn steps_are_due_within_an_iteration_of_the_deadline(
    slot: Slot,
    plan: Plan,
    deadline: u64,
    connect: nat,
    write: nat,
    read: nat,
)
    requires
        plan.deadline == Some(deadline),
        began_in_time(slot, plan),
    ensures
        slot.phase is Connecting || slot.phase is Writing || slot.phase is Reading ==> spec_due(
            slot,
            plan,
            connect,
            write,
            read,
        ) <= deadline + connect + write + read,
        slot.phase is Pacing ==> spec_due(slot, plan, connect, write, read) <= deadline
            + plan.spec_pacing_delay(),
{
}

/// A slot keeps its pace: when a request that began at `request_start` is
/// over, the slot either waits until one pacing delay has passed since that
/// beginning, or that much time has passed already and the slot says that it
/// is behind.
pub proof fn requests_of_a_slot_are_paced(slot: Slot, plan: Plan, outcome: Outcome, now: u64)
    requires
        plan.wf(),
        plan.paced(),
        slot.phase is Connecting || slot.phase is Writing || slot.phase is Reading,
        now >= slot.request_start,
    ensures
        ({
            let next = slot.spec_advance(plan, outcome, now);
            &&& next.1.action matches Action::Sleep(wait) ==> next.0.phase is Pacing && now + wait
                == slot.request_start + plan.spec_pacing_delay()
            &&& next.1.action is Connect || next.1.action is Exit ==> next.1.behind && now
                >= slot.request_start + plan.spec_pacing_delay()
            &&& next.1.action is Write || next.1.action is Read ==> outcome is Succeeded
        }),
{
    lemma_mul_is_commutative(plan.conns_per_thread as int, plan.num_threads as int);
    lemma_span_fits(
        plan.spec_thread_gap(),
        plan.conns_per_thread as int,
        plan.num_threads as int,
    );
}

/// One slot begins two requests at least a pacing delay apart, as long as
/// its driver sleeps no shorter than asked.
pub proof fn next_request_waits_a_pacing_delay(
    slot: Slot,
    plan: Plan,
    outcome: Outcome,
    now: u64,
    woken: u64,
)
    requires
        plan.wf(),
        plan.paced(),
        slot.phase is Connecting || slot.phase is Writing || slot.phase is Reading,
        now >= slot.request_start,
        slot.spec_advance(plan, outcome, now).1.action matches Action::Sleep(wait) && woken >= now
            + wait,
    ensures
        ({
            let next = slot.spec_advance(plan, outcome, now).0.spec_advance(
                plan,
                Outcome::Succeeded,
                woken,
            );
            &&& next.1.action is Connect || next.1.action is Exit
            &&& next.1.action is Connect ==> next.0.request_start == woken
            &&& woken >= slot.request_start + plan.spec_pacing_delay()
        }),
{
    requests_of_a_slot_are_paced(slot, plan, outcome, now);
}

/// The pacing delay is one tick for every slot of the run: all slots taking
/// one turn each in that time make one request per tick.
pub proof fn pacing_delay_is_a_tick_per_slot(plan: Plan)
    ensures
        plan.spec_pacing_delay() == plan.spec_thread_gap() * plan.spec_slots(),
{
    assert(plan.spec_thread_gap() * plan.conns_per_thread * plan.num_threads
        == plan.spec_thread_gap() * (plan.num_threads * plan.conns_per_thread))
        by (nonlinear_arith);
}

} // verus!

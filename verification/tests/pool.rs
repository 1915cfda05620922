use std::sync::{Arc, Mutex};
use std::time::Duration;

use async_std::sync::channel;
use async_std::task;

use clobber::pool::{Job, JobStatus, WorkerEvent, WorkerPool, WorkerPoolCommand};

/// Double the input some number of times or until a stop request arrives.
async fn double(job: Job<(usize, usize), usize>) -> JobStatus {
    let (mut i, n) = job.task;
    for _ in 0..n {
        if job.stop_requested() {
            return JobStatus::Stopped;
        }
        i *= 2;
        job.results.send(i).await;
        task::sleep(Duration::from_millis(100)).await;
    }
    JobStatus::Done
}

/// Runs until it is asked to stop.
async fn patient(job: Job<usize, usize>) -> JobStatus {
    loop {
        if job.stop_requested() {
            return JobStatus::Stopped;
        }
        task::sleep(Duration::from_millis(5)).await;
    }
}

/// Sends its item once and is done.
async fn echo(job: Job<usize, usize>) -> JobStatus {
    job.results.send(job.task).await;
    JobStatus::Done
}

fn collect(recv: async_std::sync::Receiver<usize>) -> Arc<Mutex<Vec<usize>>> {
    let seen = Arc::new(Mutex::new(Vec::new()));
    let sink = seen.clone();
    task::spawn(async move {
        while let Ok(out) = recv.recv().await {
            sink.lock().unwrap().push(out);
        }
    });
    seen
}

fn powers(start: usize, n: usize) -> Vec<usize> {
    let mut v = Vec::new();
    let mut x = start;
    for _ in 0..n {
        x *= 2;
        v.push(x);
    }
    v
}

fn only(seen: &[usize], of: &[usize]) -> Vec<usize> {
    seen.iter().copied().filter(|x| of.contains(x)).collect()
}

#[test]
fn pool_test() {
    let num_workers = 2;
    let (send, recv) = channel(num_workers);
    let mut pool = WorkerPool::new(double, send, num_workers);

    pool.push((1, 10));
    pool.push((3, 10));
    pool.push((6, 2));

    let seen = collect(recv);
    assert!(pool.work());
    assert!(!pool.working());
    assert_eq!(pool.cur_workers(), 0);
    task::block_on(task::sleep(Duration::from_millis(100)));

    let seen = seen.lock().unwrap().clone();
    // One result per inner iteration, and no more than the items allow.
    assert!(seen.len() <= 10 + 10 + 2);
    let a = powers(1, 10);
    let b = powers(3, 10);
    let c = vec![12usize, 24];
    // The first item's results are powers of two, the others' are not, so
    // each result has one source except 12 and 24, which item two also gives.
    assert_eq!(only(&seen, &a), a);
    let from_three: Vec<usize> = seen.iter().copied().filter(|x| x % 3 == 0).collect();
    let mut expected = b.clone();
    expected.extend(c.iter().copied());
    let mut sorted = from_three.clone();
    sorted.sort();
    expected.sort();
    assert_eq!(sorted, expected);
    assert_eq!(seen.len(), 22);
    // Completion order, not push order: the two workers' results interleave,
    // so the second item's first result comes before the first item's last.
    let first_of_b = seen.iter().position(|x| *x == 6).unwrap();
    let last_of_a = seen.iter().position(|x| *x == 1024).unwrap();
    assert!(first_of_b < last_of_a);
}

#[test]
fn new_pool_is_idle() {
    let (send, _recv) = channel::<usize>(3);
    let pool = WorkerPool::new(echo, send, 3);
    assert_eq!(pool.target_workers(), 3);
    assert_eq!(pool.cur_workers(), 0);
    assert!(!pool.working());
    assert!(!pool.at_target_worker_count());
}

#[test]
fn set_target_workers_takes_the_number_as_it_is() {
    let (send, _recv) = channel::<usize>(1);
    let mut pool = WorkerPool::new(echo, send, 1);
    pool.set_target_workers(7);
    assert_eq!(pool.target_workers(), 7);
    pool.set_target_workers(0);
    assert_eq!(pool.target_workers(), 0);
    assert!(pool.at_target_worker_count());
}

#[test]
fn set_worker_count_zero_is_one() {
    let (send, _recv) = channel::<usize>(4);
    let mut zero = WorkerPool::new(echo, send, 4);
    let (send, _recv) = channel::<usize>(4);
    let mut one = WorkerPool::new(echo, send, 4);
    assert!(zero.handle_command(WorkerPoolCommand::SetWorkerCount(0)));
    assert!(one.handle_command(WorkerPoolCommand::SetWorkerCount(1)));
    assert_eq!(zero.target_workers(), 1);
    assert_eq!(one.target_workers(), 1);
    assert_eq!(zero.cur_workers(), one.cur_workers());
}

#[test]
fn set_worker_count_twice_is_once() {
    let (send, _recv) = channel::<usize>(2);
    let mut pool = WorkerPool::new(patient, send, 2);
    pool.push(1);
    pool.push(2);
    pool.push(3);
    assert!(pool.handle_command(WorkerPoolCommand::SetWorkerCount(1)));
    pool.balance_workers();
    assert_eq!(pool.cur_workers(), 1);
    assert!(pool.at_target_worker_count());
    assert!(pool.handle_command(WorkerPoolCommand::SetWorkerCount(1)));
    assert_eq!(pool.target_workers(), 1);
    pool.balance_workers();
    assert_eq!(pool.cur_workers(), 1);
    assert!(pool.handle_command(WorkerPoolCommand::SetWorkerCount(0)));
    pool.balance_workers();
    assert_eq!(pool.cur_workers(), 1);
    pool.command_channel().send(WorkerPoolCommand::Stop).unwrap();
    assert!(pool.work());
}

#[test]
fn stop_command_leaves_the_counters() {
    let (send, _recv) = channel::<usize>(2);
    let mut pool = WorkerPool::new(echo, send, 2);
    assert!(!pool.handle_command(WorkerPoolCommand::Stop));
    assert_eq!(pool.target_workers(), 2);
    assert_eq!(pool.cur_workers(), 0);
}

#[test]
fn commands_arrive_through_the_channel() {
    let (send, _recv) = channel::<usize>(2);
    let mut pool = WorkerPool::new(echo, send, 2);
    let commands = pool.command_channel();
    commands.send(WorkerPoolCommand::SetWorkerCount(5)).unwrap();
    assert!(pool.event_loop());
    assert_eq!(pool.target_workers(), 5);
    commands.send(WorkerPoolCommand::SetWorkerCount(0)).unwrap();
    commands.send(WorkerPoolCommand::Stop).unwrap();
    commands.send(WorkerPoolCommand::SetWorkerCount(9)).unwrap();
    assert!(!pool.event_loop());
    assert_eq!(pool.target_workers(), 1);
    // What stood behind the `Stop` is still to be read.
    assert!(pool.event_loop());
    assert_eq!(pool.target_workers(), 9);
}

#[test]
fn stop_ends_the_run_before_anything_starts() {
    let (send, _recv) = channel::<usize>(2);
    let mut pool = WorkerPool::new(echo, send, 2);
    pool.push(1);
    pool.command_channel().send(WorkerPoolCommand::Stop).unwrap();
    assert!(!pool.tick());
    assert_eq!(pool.cur_workers(), 0);
    assert!(pool.try_next().is_none());
}

#[test]
fn reports_are_booked() {
    let (send, _recv) = channel::<usize>(3);
    let mut pool = WorkerPool::new(patient, send, 3);
    for i in 0..3 {
        pool.push(i);
    }
    for _ in 0..3 {
        pool.balance_workers();
    }
    assert_eq!(pool.cur_workers(), 3);
    assert!(pool.at_target_worker_count());
    pool.handle_event(WorkerEvent::WorkerDone);
    assert_eq!(pool.cur_workers(), 2);
    pool.set_target_workers(1);
    pool.balance_workers();
    // One stop is outstanding: two live, one of them told to leave.
    assert_eq!(pool.cur_workers(), 1);
    pool.balance_workers();
    assert_eq!(pool.cur_workers(), 1);
    pool.handle_event(WorkerEvent::WorkerStopped);
    assert_eq!(pool.cur_workers(), 1);
    pool.handle_event(WorkerEvent::WorkerDone);
    assert_eq!(pool.cur_workers(), 0);
    assert!(!pool.working());
}

#[test]
fn reports_never_take_a_counter_below_zero() {
    let (send, _recv) = channel::<usize>(2);
    let mut pool = WorkerPool::new(patient, send, 2);
    pool.handle_event(WorkerEvent::WorkerDone);
    pool.handle_event(WorkerEvent::WorkerStopped);
    assert_eq!(pool.cur_workers(), 0);
    pool.push(1);
    pool.balance_workers();
    assert_eq!(pool.cur_workers(), 1);
    pool.set_target_workers(0);
    pool.balance_workers();
    assert_eq!(pool.cur_workers(), 0);
    // The worker ends by itself although it was told to stop.
    pool.handle_event(WorkerEvent::WorkerDone);
    assert_eq!(pool.cur_workers(), 0);
    pool.handle_event(WorkerEvent::WorkerStopped);
    assert_eq!(pool.cur_workers(), 0);
}

#[test]
fn balancing_takes_one_step_at_a_time() {
    let (send, _recv) = channel::<usize>(3);
    let mut pool = WorkerPool::new(patient, send, 3);
    pool.balance_workers();
    assert_eq!(pool.cur_workers(), 0);
    for i in 0..5 {
        pool.push(i);
    }
    pool.balance_workers();
    assert_eq!(pool.cur_workers(), 1);
    pool.balance_workers();
    assert_eq!(pool.cur_workers(), 2);
    pool.balance_workers();
    assert_eq!(pool.cur_workers(), 3);
    pool.balance_workers();
    assert_eq!(pool.cur_workers(), 3);
    pool.set_target_workers(1);
    pool.balance_workers();
    assert_eq!(pool.cur_workers(), 2);
    pool.balance_workers();
    assert_eq!(pool.cur_workers(), 1);
    pool.balance_workers();
    assert_eq!(pool.cur_workers(), 1);
    pool.command_channel().send(WorkerPoolCommand::Stop).unwrap();
    assert!(pool.work_for(10));
}

#[test]
fn workers_told_to_stop_leave() {
    let (send, _recv) = channel::<usize>(2);
    let mut pool = WorkerPool::new(patient, send, 2);
    pool.push(1);
    pool.push(2);
    let mut peak = 0;
    for _ in 0..4 {
        assert!(pool.tick());
        peak = peak.max(pool.cur_workers());
    }
    assert_eq!(peak, 2);
    pool.command_channel().send(WorkerPoolCommand::SetWorkerCount(1)).unwrap();
    assert!(pool.tick());
    assert_eq!(pool.target_workers(), 1);
    assert_eq!(pool.cur_workers(), 1);
    task::block_on(task::sleep(Duration::from_millis(100)));
    assert!(pool.tick());
    assert_eq!(pool.cur_workers(), 1);
    pool.set_target_workers(0);
    assert!(!pool.tick());
    assert_eq!(pool.cur_workers(), 0);
}

#[test]
fn every_item_runs_once_in_push_order() {
    let (send, recv) = channel::<usize>(1);
    let mut pool = WorkerPool::new(echo, send, 1);
    for i in 10..20 {
        pool.push(i);
    }
    let seen = collect(recv);
    let mut peak = 0;
    let begun = std::time::Instant::now();
    while pool.tick() {
        peak = peak.max(pool.cur_workers());
        assert!(pool.cur_workers() <= pool.target_workers());
        assert!(begun.elapsed() < Duration::from_secs(15));
    }
    assert_eq!(peak, 1);
    task::block_on(task::sleep(Duration::from_millis(100)));
    let mut rest = Vec::new();
    while let Some(out) = pool.try_next() {
        rest.push(out);
    }
    let mut all = seen.lock().unwrap().clone();
    all.extend(rest);
    assert_eq!(all, (10..20).collect::<Vec<usize>>());
}

#[test]
fn work_gives_up_after_its_rounds() {
    let (send, _recv) = channel::<usize>(1);
    let mut pool = WorkerPool::new(patient, send, 1);
    pool.push(1);
    assert!(!pool.work_for(3));
    assert_eq!(pool.cur_workers(), 1);
    assert!(!pool.work_for(0));
    pool.command_channel().send(WorkerPoolCommand::Stop).unwrap();
    assert!(pool.work_for(3));
}

#[test]
fn try_next_takes_what_a_worker_delivered() {
    let (send, _recv) = channel::<usize>(1);
    let mut pool = WorkerPool::new(echo, send, 1);
    assert!(pool.try_next().is_none());
    pool.push(42);
    pool.balance_workers();
    let mut got = None;
    for _ in 0..200 {
        got = pool.try_next();
        if got.is_some() {
            break;
        }
        task::block_on(task::sleep(Duration::from_millis(5)));
    }
    assert_eq!(got, Some(42));
    assert!(pool.try_next().is_none());
}

#[test]
fn stop_requested_uses_the_request_up() {
    let (close_send, close_recv) = channel::<()>(2);
    let (results, _keep) = channel::<usize>(1);
    let job = Job::new(7usize, close_recv, results);
    assert_eq!(job.task, 7);
    assert!(!job.stop_requested());
    task::block_on(close_send.send(()));
    assert!(job.stop_requested());
    assert!(!job.stop_requested());
}

#[test]
fn endings_and_their_events() {
    assert_eq!(JobStatus::Done.event(), WorkerEvent::WorkerDone);
    assert_eq!(JobStatus::Stopped.event(), WorkerEvent::WorkerStopped);
}

#[test]
fn report_reaches_the_pool_side() {
    let (send, recv) = crossbeam_channel::unbounded();
    clobber::pool::report(&send, JobStatus::Stopped);
    clobber::pool::report(&send, JobStatus::Done);
    assert_eq!(recv.try_recv(), Ok(WorkerEvent::WorkerStopped));
    assert_eq!(recv.try_recv(), Ok(WorkerEvent::WorkerDone));
    assert!(recv.try_recv().is_err());
    drop(recv);
    clobber::pool::report(&send, JobStatus::Done);
}

#[test]
fn command_handles_are_the_pools_own_sender() {
    let (send, _recv) = channel::<usize>(2);
    let mut pool = WorkerPool::new(echo, send, 2);
    let (send, _recv) = channel::<usize>(2);
    let other = WorkerPool::new(echo, send, 2);
    let first = pool.command_channel();
    let second = pool.command_channel();
    assert!(first.same_channel(&second));
    assert!(!first.same_channel(&other.command_channel()));
    // Whichever handle a command goes in by, this pool reads it.
    first.send(WorkerPoolCommand::SetWorkerCount(3)).unwrap();
    second.send(WorkerPoolCommand::SetWorkerCount(4)).unwrap();
    assert!(pool.event_loop());
    assert_eq!(pool.target_workers(), 4);
    assert_eq!(other.target_workers(), 2);
}

/// Sends the capacity of its two channels and is done.
async fn measure(job: Job<usize, usize>) -> JobStatus {
    job.results.send(job.results.capacity()).await;
    job.results.send(job.close.capacity()).await;
    JobStatus::Done
}

/// Breaks the promise that a job ends as done or stopped.
async fn faulty(_job: Job<usize, usize>) -> JobStatus {
    JobStatus::Running
}

#[test]
fn channels_hold_as_many_messages_as_workers_were_asked_for() {
    let (send, _recv) = channel::<usize>(1);
    let mut pool = WorkerPool::new(measure, send, 3);
    pool.push(0);
    pool.balance_workers();
    let mut got = Vec::new();
    for _ in 0..400 {
        if let Some(out) = pool.try_next() {
            got.push(out);
        }
        if got.len() == 2 {
            break;
        }
        task::block_on(task::sleep(Duration::from_millis(5)));
    }
    assert_eq!(got, vec![3, 3]);
    // A later target does not resize them.
    pool.set_target_workers(5);
    pool.push(0);
    assert!(pool.event_loop());
    pool.balance_workers();
    let mut got = Vec::new();
    for _ in 0..400 {
        if let Some(out) = pool.try_next() {
            got.push(out);
        }
        if got.len() == 2 {
            break;
        }
        task::block_on(task::sleep(Duration::from_millis(5)));
    }
    assert_eq!(got, vec![3, 3]);
}

#[test]
fn a_stop_sent_before_the_run_keeps_every_item_queued() {
    let (send, recv) = channel::<usize>(2);
    let mut pool = WorkerPool::new(echo, send, 2);
    pool.push(1);
    pool.push(2);
    pool.push(3);
    pool.command_channel().send(WorkerPoolCommand::Stop).unwrap();
    assert!(pool.work());
    assert_eq!(pool.cur_workers(), 0);
    assert!(!pool.working());
    task::block_on(task::sleep(Duration::from_millis(50)));
    assert!(pool.try_next().is_none());
    assert!(recv.try_recv().is_err());
    // The three items are still queued, in push order: a run with one worker
    // at a time gives them back in that order.
    pool.set_target_workers(1);
    let seen = collect(recv);
    assert!(pool.work());
    task::block_on(task::sleep(Duration::from_millis(100)));
    let mut all = seen.lock().unwrap().clone();
    while let Some(out) = pool.try_next() {
        all.push(out);
    }
    assert_eq!(all, vec![1, 2, 3]);
}

#[test]
fn a_stop_during_the_run_ends_it_on_that_round() {
    let (send, _recv) = channel::<usize>(2);
    let mut pool = WorkerPool::new(patient, send, 2);
    for i in 0..5 {
        pool.push(i);
    }
    assert!(pool.tick());
    assert_eq!(pool.cur_workers(), 1);
    pool.command_channel().send(WorkerPoolCommand::Stop).unwrap();
    // The target is two and work is queued, but the round of the `Stop`
    // starts nothing, and the worker in flight is left alone.
    assert!(pool.work());
    assert_eq!(pool.cur_workers(), 1);
    assert!(pool.working());
    assert!(!pool.at_target_worker_count());
    // Without a `Stop` the next round starts the second worker.
    assert!(pool.tick());
    assert_eq!(pool.cur_workers(), 2);
    pool.command_channel().send(WorkerPoolCommand::Stop).unwrap();
    assert!(pool.work());
}

#[test]
fn stop_requests_go_out_one_per_round() {
    let (send, _recv) = channel::<usize>(4);
    let mut pool = WorkerPool::new(patient, send, 4);
    for i in 0..4 {
        pool.push(i);
    }
    assert!(!pool.work_for(4));
    assert_eq!(pool.cur_workers(), 4);
    pool.command_channel().send(WorkerPoolCommand::SetWorkerCount(1)).unwrap();
    // One round, one request: three rounds bring four workers down to one.
    assert!(pool.tick());
    let after_one = pool.cur_workers();
    assert!(pool.tick());
    let after_two = pool.cur_workers();
    assert!(pool.tick());
    let after_three = pool.cur_workers();
    assert!(pool.tick());
    assert_eq!((after_one, after_two, after_three), (3, 2, 1));
    assert_eq!(pool.cur_workers(), 1);
    assert!(pool.at_target_worker_count());
    pool.command_channel().send(WorkerPoolCommand::Stop).unwrap();
    assert!(pool.work());
}

#[test]
fn an_unfinished_run_has_made_all_its_rounds() {
    let (send, _recv) = channel::<usize>(3);
    let mut pool = WorkerPool::new(patient, send, 3);
    for i in 0..3 {
        pool.push(i);
    }
    // Each round starts one worker: after two rounds two are working.
    assert!(!pool.work_for(2));
    assert_eq!(pool.cur_workers(), 2);
    assert!(!pool.work_for(1));
    assert_eq!(pool.cur_workers(), 3);
    pool.command_channel().send(WorkerPoolCommand::Stop).unwrap();
    assert!(pool.work());
}

#[test]
fn a_job_that_ends_as_running_is_never_booked() {
    let (send, _recv) = channel::<usize>(1);
    let mut pool = WorkerPool::new(faulty, send, 1);
    pool.push(1);
    pool.balance_workers();
    assert_eq!(pool.cur_workers(), 1);
    task::block_on(task::sleep(Duration::from_millis(200)));
    assert!(pool.event_loop());
    assert_eq!(pool.cur_workers(), 1);
}

//! The channels and the task runtime that the pool is built on. Nothing in
//! this file is proved: each item says what is taken on trust.

use vstd::prelude::*;
use crate::pool::JobStatus;
use crate::pool::WorkerEvent;

verus! {

/// The sending half of a `crossbeam_channel` channel, carried as an opaque
/// value.
#[verifier::external_type_specification]
#[verifier::external_body]
#[verifier::reject_recursive_types(T)]
pub struct ExBusSender<T>(crossbeam_channel::Sender<T>);

/// The receiving half of a `crossbeam_channel` channel, carried as an opaque
/// value.
#[verifier::external_type_specification]
#[verifier::external_body]
#[verifier::reject_recursive_types(T)]
pub struct ExBusReceiver<T>(crossbeam_channel::Receiver<T>);

/// The sending half of an `async_std::sync` channel, carried as an opaque
/// value.
#[verifier::external_type_specification]
#[verifier::external_body]
#[verifier::reject_recursive_types(T)]
pub struct ExLaneSender<T>(async_std::sync::Sender<T>);

/// The receiving half of an `async_std::sync` channel, carried as an opaque
/// value.
#[verifier::external_type_specification]
#[verifier::external_body]
#[verifier::reject_recursive_types(T)]
pub struct ExLaneReceiver<T>(async_std::sync::Receiver<T>);

/// `crossbeam_channel::unbounded`: a new channel without a capacity limit.
/// Nothing is claimed of the two halves.
#[verifier::external_body]
pub(crate) fn bus<T>() -> (ends: (crossbeam_channel::Sender<T>, crossbeam_channel::Receiver<T>)) {
    crossbeam_channel::unbounded()
}

/// `crossbeam_channel::Receiver::len`: how many messages the channel holds at
/// the moment of the call. Other threads send meanwhile, so nothing is
/// claimed of the number.
#[verifier::external_body]
pub(crate) fn bus_len<T>(rx: &crossbeam_channel::Receiver<T>) -> (n: usize) {
    rx.len()
}

/// `crossbeam_channel::Receiver::try_recv`: a message if one is ready, without
/// waiting; `None` for an empty or disconnected channel. Nothing is claimed of
/// which it is.
#[verifier::external_body]
pub(crate) fn bus_take<T>(rx: &crossbeam_channel::Receiver<T>) -> (msg: Option<T>) {
    rx.try_recv().ok()
}

/// `Clone::clone` of a `crossbeam_channel::Sender`: another handle to the same
/// channel. A sender holds the pointer to its channel and nothing else, and
/// the outside clone copies that pointer after counting the new handle, so
/// the clone is the same value as the sender it was made from.
#[verifier::external_body]
pub(crate) fn bus_handle<T>(tx: &crossbeam_channel::Sender<T>) -> (handle:
    crossbeam_channel::Sender<T>)
    ensures
        handle == *tx,
{
    tx.clone()
}

/// `async_std::sync::channel`: a new channel that holds at most `cap`
/// messages. The outside function panics on a capacity of zero, which the
/// precondition leaves out; it allocates the `cap` slots at once.
#[verifier::external_body]
pub(crate) fn lane<T>(cap: usize) -> (ends: (
    async_std::sync::Sender<T>,
    async_std::sync::Receiver<T>,
))
    requires
        cap > 0,
{
    async_std::sync::channel(cap)
}

/// `async_std::sync::Receiver::len`: how many messages the channel holds at
/// the moment of the call. Nothing is claimed of the number.
#[verifier::external_body]
pub(crate) fn lane_len<T>(rx: &async_std::sync::Receiver<T>) -> (n: usize) {
    rx.len()
}

/// `async_std::sync::Receiver::try_recv`: a message if one is ready, without
/// waiting; `None` otherwise. Nothing is claimed of which it is.
#[verifier::external_body]
pub(crate) fn lane_take<T>(rx: &async_std::sync::Receiver<T>) -> (msg: Option<T>) {
    rx.try_recv().ok()
}

/// `async_std::sync::Sender::send`, driven to its end by
/// `async_std::task::block_on`: the calling thread waits while the channel is
/// full and returns once the message is in it.
#[verifier::external_body]
pub(crate) fn lane_send<T>(tx: &async_std::sync::Sender<T>, msg: T) {
    async_std::task::block_on(tx.send(msg))
}

/// `Clone::clone` of an `async_std::sync::Sender`: another handle to the same
/// channel.
#[verifier::external_body]
pub(crate) fn lane_sender<T>(tx: &async_std::sync::Sender<T>) -> (handle:
    async_std::sync::Sender<T>) {
    tx.clone()
}

/// `Clone::clone` of an `async_std::sync::Receiver`: another handle to the
/// same channel.
#[verifier::external_body]
pub(crate) fn lane_receiver<T>(rx: &async_std::sync::Receiver<T>) -> (handle:
    async_std::sync::Receiver<T>) {
    rx.clone()
}

/// `crossbeam_channel::Sender::send`: puts the message in the channel. On a
/// bounded channel that is full the outside function waits for room; the
/// pool's buses have no bound. Says whether the message was taken: the
/// outside function refuses it once every receiver is gone.
#[verifier::external_body]
pub(crate) fn bus_send<T>(tx: &crossbeam_channel::Sender<T>, msg: T) -> (sent: bool) {
    tx.send(msg).is_ok()
}

/// `async_std::task::spawn` on the job with `futures::future::FutureExt::map`
/// behind it: the job runs on the runtime, detached, and when it ends the
/// status goes to `report`, which sends the matching event into `events`.
/// `report` is not meant for `Running`: a job that ends so has broken the job
/// function's promise, and its task panics there instead of reporting.
#[verifier::external_body]
pub(crate) fn spawn_reporting<W>(work: W, events: crossbeam_channel::Sender<WorkerEvent>) where
    W: core::future::Future<Output = JobStatus> + Send + 'static,
 {
    async_std::task::spawn(
        futures::future::FutureExt::map(
            work,
            move |status: JobStatus| crate::pool::report(&events, status),
        ),
    );
}

} // verus!

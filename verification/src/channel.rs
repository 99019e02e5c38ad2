//! The blocking transport behind the pool: an unbounded multi-producer,
//! multi-consumer channel of wake-up tickets. One ticket is sent per
//! submitted job; a worker blocks on the ticket stream and answers each
//! ticket with one verified dequeue-and-run step on the shared job queue.
//! Everything that crosses into `crossbeam_channel` is gathered here.

use vstd::prelude::*;
use vstd::rwlock::RwLock;
use std::sync::Arc;
use crate::queue::JobQueue;
use crate::pool::{Job, QueuePred};

verus! {

#[verifier::external_type_specification]
#[verifier::external_body]
#[verifier::reject_recursive_types(T)]
pub struct ExSender<T>(crossbeam_channel::Sender<T>);

#[verifier::external_type_specification]
#[verifier::external_body]
#[verifier::reject_recursive_types(T)]
pub struct ExReceiver<T>(crossbeam_channel::Receiver<T>);

/// Relies on crossbeam_channel::unbounded: creates a channel of unbounded
/// capacity; every sender handle and every receiver handle refers to the
/// same channel.
pub assume_specification<T>[ crossbeam_channel::unbounded::<T> ]() -> (r: (
    crossbeam_channel::Sender<T>,
    crossbeam_channel::Receiver<T>,
));

/// Relies on crossbeam_channel's `Clone` for `Receiver`: the clone is
/// another consuming handle on the same channel, so each message is still
/// delivered to exactly one of the holders.
pub assume_specification<T>[ <crossbeam_channel::Receiver<T> as Clone>::clone ](
    rx: &crossbeam_channel::Receiver<T>,
) -> crossbeam_channel::Receiver<T>;

/// Relies on crossbeam_channel's `Clone` for `Sender`: the clone is another
/// producing handle on the same channel; the channel disconnects only when
/// every one of them has been dropped.
pub assume_specification<T>[ <crossbeam_channel::Sender<T> as Clone>::clone ](
    tx: &crossbeam_channel::Sender<T>,
) -> crossbeam_channel::Sender<T>;

/// Relies on crossbeam_channel::Sender::send: on an unbounded channel the
/// call never blocks; it fails only when every receiver has been dropped,
/// and then hands the unsent message back.
#[verifier::external_body]
pub(crate) fn channel_send<T>(tx: &crossbeam_channel::Sender<T>, msg: T) -> (r: Result<(), T>)
    ensures
        r matches Err(m) ==> m == msg,
{
    match tx.send(msg) {
        Ok(()) => Ok(()),
        Err(e) => Err(e.0),
    }
}

/// Relies on crossbeam_channel::Receiver::recv: blocks until a message is
/// available and takes it, or reports failure once the channel is empty and
/// every sender has been dropped.
#[verifier::external_body]
pub(crate) fn channel_recv<T>(rx: &crossbeam_channel::Receiver<T>) -> (r: Result<T, ()>) {
    match rx.recv() {
        Ok(msg) => Ok(msg),
        Err(_e) => Err(()),
    }
}

/// Relies on crossbeam_channel::Receiver::iter: the iterator blocks until a
/// message is available, yields each message sent on the channel to exactly
/// one receiving handle, and ends once the channel is empty and every sender
/// has been dropped. Each ticket drawn from it is answered with one verified
/// dequeue-and-run step on the shared job queue.
#[verifier::external_body]
pub(crate) fn run_worker<J: Job + Send + 'static>(
    tickets: crossbeam_channel::Receiver<()>,
    jobs: Arc<RwLock<JobQueue<J>, QueuePred>>,
) {
    tickets.iter().for_each(|_t| crate::pool::worker_step(&jobs));
}

/// Relies on crossbeam_channel's `Drop` for `Sender`: dropping the last
/// sender disconnects the channel, after which a receiver blocked in `iter`
/// finishes yielding the already-sent messages and then stops.
#[verifier::external_body]
pub(crate) fn drop_sender(tx: Option<crossbeam_channel::Sender<()>>) {
    drop(tx);
}

} // verus!

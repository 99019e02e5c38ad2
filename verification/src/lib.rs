//! A minimal concurrent request dispatcher: a fixed-size pool of workers
//! that accepts fire-and-forget units of deferred work and executes each
//! on exactly one worker, with the caller never blocking on dispatch.
//!
//! The shared hand-off structure is the verified FIFO [`queue::JobQueue`];
//! workers block on a channel of wake-up tickets and answer each ticket
//! with one verified dequeue-and-run step.

pub mod channel;
pub mod pool;
pub mod queue;

pub use pool::{ExecuteError, Job, PoolConstructionError, ThreadPool, Worker};
pub use queue::{JobQueue, QueueClosed, Received};

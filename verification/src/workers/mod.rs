//! The threads that commands run on, where no caller's own thread is to be occupied by one.
//!
//! A worker is a thread that occupies itself inside the engine for the length of one command, so
//! the worker count *is* the parallelism. It follows the same
//! [`Concurrency`](crate::options::Concurrency) policy the session pool does: `min` started at
//! open, another whenever a job is queued with nobody free to take it, up to `max`, and a worker
//! that waits out the idle timeout with nothing to do retires itself.
//!
//! Everything here decides and nothing here waits, locks or spawns.

pub mod shutdown;
pub mod state;

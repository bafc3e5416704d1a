//! The sessions that commands run on, and the interrupt that makes a command abandonable.
//!
//! A session runs one command at a time, so a client shared across threads needs a pool: a
//! caller takes one for the length of its command and hands it back. Callers past the pool wait
//! for one to come free rather than failing.
//!
//! Everything here decides and nothing here waits. Whoever holds the lock over a pool or a slot
//! asks it what to do, and does it.

pub mod reaper;
pub mod slot;

//! An embedded MongoDB engine's client layer.
//!
//! Everything a client of the engine decides, and nothing that it waits for: what goes to the
//! engine, what its replies mean, who may use it when, and what is to be said and done about
//! each. Sending, sleeping, locking and spawning are the business of whoever drives this.

pub mod aggregate;
pub mod collection;
pub mod command;
pub mod document;
pub mod duration;
pub mod error;
pub mod find;
pub mod insert;
pub mod laws;
pub mod limits;
pub mod options;
pub mod pool;
pub mod range;
pub mod repair;
pub mod text;
pub mod workers;

pub use crate::error::Error;
pub use crate::insert::{InsertManyResult, InsertOneResult};
pub use crate::limits::floor::FreeDiskFloor;
pub use crate::limits::knobs::{IndexBuildFloor, QuerySpillingFloor, ReportedFloors};
pub use crate::options::{
    CacheSize, Concurrency, JournalFileSize, OpenOptions, Preallocation,
};
pub use crate::range::{Bounds, OutOfRange};

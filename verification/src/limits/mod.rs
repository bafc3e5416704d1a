//! The free-disk floors, lowered on a running engine rather than baked into the library.
//!
//! The server refuses to start an index build, or to spill a query to disk, when the data
//! directory has less than 500 MB free. That is sized for a server. A phone near its limit does
//! not have 500 MB free at all, so on such a device an application that can open and read its
//! database still cannot build an index over it.
//!
//! It is not lowered by default. Nothing aborts a build that runs out of space part-way, and an
//! engine that meets a full disk takes the host process with it. How much headroom is enough
//! depends on how much data is about to be indexed, which the caller knows and this library does
//! not.

pub mod at_open;
pub mod floor;
pub mod knobs;
pub mod process;

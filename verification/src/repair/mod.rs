//! A one-time pass that repairs directories an older build left with unmaintained indexes.
//!
//! Until the engine started registering databases already on disk, a collection loaded from a
//! reopened directory carried an empty in-memory index catalog. Every write after that reopen
//! went into the record store and into no index at all. The engine no longer does that, but
//! opening such a directory with the fixed engine does not undo it: the entries are still
//! missing, and nothing says so until something asks.
//!
//! `validate {repair: true}` is the engine's own answer, so this pass runs it, at most once per
//! directory, over every collection that needs it. A pass counts as complete when it has
//! *visited* every collection, not when every collection came out sound; only a complete pass
//! writes the marker, so one that was cut short is retried on the next open. It never fails the
//! open.

pub mod commands;
pub mod marker;
pub mod namespace;
pub mod pass;
pub mod report;
pub mod visit;

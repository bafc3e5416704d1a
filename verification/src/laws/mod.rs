//! What the library promises, stated over what goes into an operation and what comes out of it.
//!
//! The contracts of the library are written over specification functions of their own modules. The
//! laws here say what those come to: in the fields of documents, in counts and in the very words
//! that go to the engine.

pub mod cursors;
pub mod documents;
pub mod floors;
pub mod insertions;
pub mod policies;
pub mod repairs;
pub mod replies;
pub mod sessions;
pub mod views;
pub mod words;
pub mod workers;

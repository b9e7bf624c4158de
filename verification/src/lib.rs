//! A verified generator for replayable SQL database dumps.
//!
//! The library builds every piece of text that a dump contains — schema
//! statements, INSERT headers, batched row tuples, the lock statement —
//! as pure functions with proved contracts.  Running the queries and
//! printing the stream is left to the surrounding program.

pub mod batch;
pub mod charset;
pub mod cli;
pub mod column;
pub mod dump;
pub mod header;
pub mod lock;
pub mod sql;
pub mod table;
pub mod text;

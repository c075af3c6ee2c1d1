//! Import of Cherry Studio usage records into a unified usage log.
//!
//! Everything the import decides stands here: where the studio keeps its
//! database, when the database is worth reading, which of its rows count, how
//! a row becomes a log entry, what the entry costs, and in which order the
//! destination is written. Reading and writing databases is left to the
//! caller, who performs one action at a time and reports what came of it.

pub mod amount;
pub mod backfill;
pub mod cost_laws;
pub mod course_laws;
pub mod entry_laws;
pub mod import;
pub mod laws;
pub mod location;
pub mod pricing;
pub mod protocol;
pub mod run_laws;
pub mod sync;
pub mod text;
pub mod usage;
pub mod usage_laws;
pub mod view_laws;
pub mod world;

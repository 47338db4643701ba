//! Decision logic of two database benchmark runners: choosing the row count
//! and building the generated-series query, and the flat retry loops of the
//! native client and of the shell client, as state machines whose actions the
//! caller performs.

pub mod native;
pub mod shell;
pub mod sql;

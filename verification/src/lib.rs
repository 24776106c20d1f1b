//! Finds out which process listens on a TCP port, from the text that the
//! system's own tools print.
//!
//! The crate holds the pure side of a port lookup: which command to run on
//! which system, how each line of its output is read, which records survive
//! the exact port filter, how a record is completed with secondary lookups and
//! how the answer is rendered. Running commands and reading files is left to
//! the caller, who is told at each step what to fetch next.

pub mod cli;
pub mod format;
pub mod text;
pub mod types;
pub mod platform;

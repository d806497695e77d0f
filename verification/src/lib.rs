//! Verified core of a directory fan-out runner: enumerate the children of a
//! root directory, run one external command per child across a worker pool,
//! and print each child whose exit status matches the configured polarity.
//!
//! The library holds the decision logic — placeholder substitution, stdio
//! selection, polarity judgement and output planning — as verified functions
//! over plain values. Process spawning, directory reading and the thread pool
//! live outside the library and feed it those values.

pub mod config;
pub mod outcome;
pub mod report;
pub mod template;

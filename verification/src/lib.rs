//! Verified core of a bulk downloader for monthly dataset files.
//!
//! The library turns a `YYYY-MM` date range into a plan of download
//! tasks, models the per-task transfer state machine (skip, stream,
//! cancel, integrity check), bounds transfer concurrency, and
//! aggregates progress. All network and disk work is performed by the
//! surrounding application; the library makes every decision and is
//! verified to honour the documented behaviour.

pub mod cli;
pub mod control;
pub mod digits;
pub mod download;
pub mod error;
pub mod progress;
pub mod utils;
pub mod worker;

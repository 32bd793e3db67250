//! Error type for the downloader core.

use vstd::prelude::*;

verus! {

/// The errors the downloader core can report.
///
/// Run-level errors (invalid dates, a missing argument, a failure to
/// create the output directory) abort a run before any task starts;
/// the other variants describe the failure of a single task and never
/// stop sibling tasks.
#[derive(Debug, Clone)]
pub enum TlcError {
    /// A local I/O operation failed; the payload describes it.
    Io(String),
    /// A network operation failed after retries were exhausted.
    Network(String),
    /// A date string was not of the form `YYYY-MM`; the payload says
    /// which part was rejected.
    InvalidDate(String),
    /// A month outside 1..=12 was supplied; the payload is the month.
    InvalidMonth(i32),
    /// A required option was not supplied; the payload names it.
    MissingArgument(String),
    /// A transfer ended in a terminal failure; the payload describes it.
    DownloadFailed(String),
    /// The run was cancelled by the user.
    Cancelled,
}

} // verus!

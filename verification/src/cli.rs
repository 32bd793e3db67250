//! The option types the command line and the configuration layer
//! fill in, and their resolution into a run's `DownloadOptions`.

use vstd::prelude::*;

use crate::download::DownloadOptions;
use crate::error::TlcError;

verus! {

/// The parsed command line: at most one subcommand.
pub struct Cli {
    /// The chosen subcommand, if any.
    pub command: Option<Commands>,
}

/// The subcommands the tool offers.
pub enum Commands {
    /// Download a date range of files.
    Download(DownloadArgs),
    /// Audit local data against the server.
    Audit(AuditArgs),
    /// Collect the download arguments interactively.
    Wizard,
}

/// The download subcommand's arguments; the unset ones are collected
/// interactively before a run starts.
pub struct DownloadArgs {
    /// The dataset kind to download.
    pub kind: Option<String>,
    /// The first month of the range, as `YYYY-MM`.
    pub start: Option<String>,
    /// The last month of the range, as `YYYY-MM`.
    pub end: Option<String>,
    /// The directory the files are written into.
    pub output: String,
    /// The number of transfers allowed to run at once.
    pub concurrency: usize,
}

/// The audit subcommand's arguments.
pub struct AuditArgs {
    /// The dataset kind to audit.
    pub kind: String,
    /// The directory to check.
    pub output: String,
}

/// The values the configuration layer resolves before a run.
pub struct Settings {
    /// The directory the files are written into.
    pub output: String,
    /// The number of transfers allowed to run at once.
    pub concurrency: usize,
}

impl Default for Settings {
    /// The built-in settings used when no configuration overrides
    /// them.
    fn default() -> (s: Self)
        ensures
            s.output@ == "./data"@,
            s.concurrency == 5,
    {
        Settings { output: String::from_str("./data"), concurrency: 5 }
    }
}

/// Resolves the download arguments into a run's options, requiring
/// the three values no default can supply; each missing one is
/// named in its error.
pub fn download_options_from_args(args: DownloadArgs) -> (r: Result<DownloadOptions, TlcError>)
    ensures
        r is Ok <==> args.kind is Some && args.start is Some && args.end is Some,
        args.kind is None ==> (r matches Err(TlcError::MissingArgument(m)) && m@ == "type"@),
        args.kind is Some && args.start is None ==> (r matches Err(TlcError::MissingArgument(m))
            && m@ == "start"@),
        args.kind is Some && args.start is Some && args.end is None ==> (r matches Err(
            TlcError::MissingArgument(m),
        ) && m@ == "end"@),
        args.kind matches Some(k) ==> args.start matches Some(st) ==> args.end matches Some(en)
            ==> (r matches Ok(o) && o.kind == k && o.start == st && o.end == en && o.output
            == args.output && o.concurrency == args.concurrency),
{
    let DownloadArgs { kind, start, end, output, concurrency } = args;
    let kind: String = match kind {
        Some(k) => k,
        None => {
            return Err(TlcError::MissingArgument(String::from_str("type")));
        },
    };
    let start: String = match start {
        Some(s) => s,
        None => {
            return Err(TlcError::MissingArgument(String::from_str("start")));
        },
    };
    let end: String = match end {
        Some(e) => e,
        None => {
            return Err(TlcError::MissingArgument(String::from_str("end")));
        },
    };
    Ok(DownloadOptions { kind, start, end, output, concurrency })
}

} // verus!

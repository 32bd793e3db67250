//! Run planning and run reporting.
//!
//! A run starts from a `DownloadOptions` value. `plan_run` expands
//! the date range and plans one `DownloadTask` per month; the
//! application then probes sizes, transfers bodies, and collects one
//! `TaskOutcome` per task, which `summarize` folds into the final
//! report. Planning is deterministic, and planned tasks never share
//! a target path.

use vstd::prelude::*;

use crate::error::TlcError;
use crate::utils::{
    date_error_matches, date_parses, date_value, filename_chars, generate_date_range,
    generate_filename, generate_url, lemma_filename_injective, month_index, month_key, url_chars,
};

verus! {

/// The fully resolved input of one run. `concurrency` bounds the
/// number of simultaneous transfers and must be at least one.
#[derive(Debug)]
pub struct DownloadOptions {
    /// The dataset kind the remote host serves, such as `yellow`.
    pub kind: String,
    /// The first month of the range, as `YYYY-MM`.
    pub start: String,
    /// The last month of the range, as `YYYY-MM`.
    pub end: String,
    /// The directory the files are written into.
    pub output: String,
    /// The number of transfers allowed to run at once.
    pub concurrency: usize,
}

/// One unit of work: a (kind, year, month) key with its planned
/// remote name, local name, and the size the prober expects (zero
/// until the prober or a response reveals it).
#[derive(Debug, Clone)]
pub struct DownloadTask {
    /// The dataset kind the task belongs to.
    pub kind: String,
    /// The year of the task's month key.
    pub year: i32,
    /// The month of the task's month key, in 1..=12.
    pub month: i32,
    /// The remote name the body is fetched from.
    pub url: String,
    /// The local file name the body is written to.
    pub filename: String,
    /// The expected byte size; zero while unknown.
    pub expected_size: u64,
}

/// Whether a task carries exactly the names planned for its triple.
pub open spec fn task_well_planned(t: DownloadTask, kind: Seq<char>, year: int, month: int) -> bool {
    &&& t.kind@ == kind
    &&& t.year as int == year
    &&& t.month as int == month
    &&& t.url@ == url_chars(kind, year, month)
    &&& t.filename@ == filename_chars(kind, year, month)
}

/// Plans the task of one (kind, year, month) key. Pure and
/// deterministic: equal inputs plan equal names.
pub fn plan_task(kind: &str, year: i32, month: i32) -> (t: DownloadTask)
    ensures
        task_well_planned(t, kind@, year as int, month as int),
        t.expected_size == 0,
{
    DownloadTask {
        kind: String::from_str(kind),
        year,
        month,
        url: generate_url(kind, year, month),
        filename: generate_filename(kind, year, month),
        expected_size: 0,
    }
}

/// Plans one task per (year, month) key, in the order given.
pub fn plan_tasks(kind: &str, dates: &Vec<(i32, i32)>) -> (ts: Vec<DownloadTask>)
    ensures
        ts@.len() == dates@.len(),
        forall|k: int|
            0 <= k < ts@.len() ==> task_well_planned(
                #[trigger] ts@[k],
                kind@,
                dates@[k].0 as int,
                dates@[k].1 as int,
            ) && ts@[k].expected_size == 0,
{
    let mut ts: Vec<DownloadTask> = Vec::new();
    let mut i: usize = 0;
    while i < dates.len()
        invariant
            0 <= i <= dates@.len(),
            ts@.len() == i,
            forall|k: int|
                0 <= k < i ==> task_well_planned(
                    #[trigger] ts@[k],
                    kind@,
                    dates@[k].0 as int,
                    dates@[k].1 as int,
                ) && ts@[k].expected_size == 0,
        decreases dates@.len() - i,
    {
        let (year, month) = dates[i];
        ts.push(plan_task(kind, year, month));
        i = i + 1;
    }
    ts
}

/// Expands the option's date range and plans one task per month.
///
/// Fails exactly when a boundary date does not parse, with that
/// date's own error, the start checked first; a start later than the
/// end plans an empty run.
pub fn plan_run(options: &DownloadOptions) -> (r: Result<Vec<DownloadTask>, TlcError>)
    ensures
        r is Ok <==> date_parses(options.start@) && date_parses(options.end@),
        !date_parses(options.start@) ==> (r matches Err(e) && date_error_matches(
            options.start@,
            e,
        )),
        date_parses(options.start@) && !date_parses(options.end@) ==> (r matches Err(e)
            && date_error_matches(options.end@, e)),
        r matches Ok(ts) ==> {
            let lo = month_index(date_value(options.start@).0, date_value(options.start@).1);
            let hi = month_index(date_value(options.end@).0, date_value(options.end@).1);
            &&& lo > hi ==> ts@.len() == 0
            &&& lo <= hi ==> ts@.len() == hi - lo + 1
            &&& forall|k: int|
                0 <= k < ts@.len() ==> task_well_planned(
                    #[trigger] ts@[k],
                    options.kind@,
                    month_key(lo + k).0 as int,
                    month_key(lo + k).1 as int,
                ) && ts@[k].expected_size == 0
        },
{
    let dates: Vec<(i32, i32)> = match generate_date_range(options.start.as_str(), options.end.as_str()) {
        Ok(d) => d,
        Err(e) => {
            return Err(e);
        },
    };
    Ok(plan_tasks(options.kind.as_str(), &dates))
}

/// No two planned tasks of one run target the same local file: the
/// month keys of a run are distinct, and planning is injective in
/// the (kind, year, month) triple.
pub proof fn lemma_plan_targets_distinct(ts: Seq<DownloadTask>, kind: Seq<char>, lo: int)
    requires
        0 <= lo,
        lo + ts.len() <= 12 * (i32::MAX as int) + 12,
        forall|k: int|
            0 <= k < ts.len() ==> task_well_planned(
                #[trigger] ts[k],
                kind,
                month_key(lo + k).0 as int,
                month_key(lo + k).1 as int,
            ),
    ensures
        forall|i: int, j: int| 0 <= i < j < ts.len() ==> ts[i].filename@ != ts[j].filename@,
{
    assert forall|i: int, j: int| 0 <= i < j < ts.len() implies ts[i].filename@
        != ts[j].filename@ by {
        let a = lo + i;
        let b = lo + j;
        assert(0 <= a / 12 <= i32::MAX && 0 <= a % 12 < 12);
        assert(0 <= b / 12 <= i32::MAX && 0 <= b % 12 < 12);
        if ts[i].filename@ == ts[j].filename@ {
            lemma_filename_injective(
                kind,
                a / 12,
                a % 12 + 1,
                kind,
                b / 12,
                b % 12 + 1,
            );
            assert(a == 12 * (a / 12) + a % 12);
            assert(b == 12 * (b / 12) + b % 12);
            assert(false);
        }
    }
}

/// Why one task failed.
#[derive(Debug, Clone)]
pub enum FailReason {
    /// The response carried an unsuccessful status code.
    HttpStatus(u16),
    /// The file on disk did not match the expected byte size.
    SizeMismatch {
        /// The size the task expected.
        expected: u64,
        /// The size found on disk.
        actual: u64,
    },
    /// The transfer failed on the network after retries.
    Network(String),
    /// Creating or writing the local file failed.
    Io(String),
}

/// The terminal state of one task. Produced once per task and never
/// mutated.
#[derive(Debug, Clone)]
pub enum TaskOutcome {
    /// The target file already existed; nothing was fetched.
    Skipped,
    /// The transfer finished; the payload is the bytes written.
    Completed(u64),
    /// The task failed; the payload says why.
    Failed(FailReason),
    /// The run's cancellation signal ended the task.
    Cancelled,
}

/// The counts the final report shows, one per terminal state.
#[derive(Debug, Clone, Copy, PartialEq, Eq, Structural)]
pub struct RunSummary {
    /// Tasks whose target file already existed.
    pub skipped: usize,
    /// Tasks whose transfer finished.
    pub completed: usize,
    /// Tasks that failed.
    pub failed: usize,
    /// Tasks ended by cancellation.
    pub cancelled: usize,
}

/// The number of outcomes of `s` satisfying `f`.
pub open spec fn count_outcomes(s: Seq<TaskOutcome>, f: spec_fn(TaskOutcome) -> bool) -> int
    decreases s.len(),
{
    if s.len() == 0 {
        0
    } else {
        count_outcomes(s.drop_last(), f) + if f(s.last()) {
            1int
        } else {
            0int
        }
    }
}

/// A count never exceeds the number of outcomes counted.
proof fn lemma_count_le_len(s: Seq<TaskOutcome>, f: spec_fn(TaskOutcome) -> bool)
    ensures
        0 <= count_outcomes(s, f) <= s.len(),
    decreases s.len(),
{
    if s.len() > 0 {
        lemma_count_le_len(s.drop_last(), f);
    }
}

/// Folds the tasks' outcomes into the final report: one count per
/// terminal state, every outcome counted exactly once.
pub fn summarize(outcomes: &Vec<TaskOutcome>) -> (s: RunSummary)
    ensures
        s.skipped == count_outcomes(outcomes@, |o: TaskOutcome| o is Skipped),
        s.completed == count_outcomes(outcomes@, |o: TaskOutcome| o is Completed),
        s.failed == count_outcomes(outcomes@, |o: TaskOutcome| o is Failed),
        s.cancelled == count_outcomes(outcomes@, |o: TaskOutcome| o is Cancelled),
        s.skipped + s.completed + s.failed + s.cancelled == outcomes@.len(),
{
    let ghost f_skipped = |o: TaskOutcome| o is Skipped;
    let ghost f_completed = |o: TaskOutcome| o is Completed;
    let ghost f_failed = |o: TaskOutcome| o is Failed;
    let ghost f_cancelled = |o: TaskOutcome| o is Cancelled;
    let mut skipped: usize = 0;
    let mut completed: usize = 0;
    let mut failed: usize = 0;
    let mut cancelled: usize = 0;
    let mut i: usize = 0;
    while i < outcomes.len()
        invariant
            0 <= i <= outcomes@.len(),
            skipped == count_outcomes(outcomes@.take(i as int), f_skipped),
            completed == count_outcomes(outcomes@.take(i as int), f_completed),
            failed == count_outcomes(outcomes@.take(i as int), f_failed),
            cancelled == count_outcomes(outcomes@.take(i as int), f_cancelled),
            skipped + completed + failed + cancelled == i,
            f_skipped == (|o: TaskOutcome| o is Skipped),
            f_completed == (|o: TaskOutcome| o is Completed),
            f_failed == (|o: TaskOutcome| o is Failed),
            f_cancelled == (|o: TaskOutcome| o is Cancelled),
        decreases outcomes@.len() - i,
    {
        proof {
            assert(outcomes@.take(i + 1).drop_last() =~= outcomes@.take(i as int));
            assert(outcomes@.take(i + 1).last() == outcomes@[i as int]);
        }
        match outcomes[i] {
            TaskOutcome::Skipped => {
                skipped = skipped + 1;
            },
            TaskOutcome::Completed(_) => {
                completed = completed + 1;
            },
            TaskOutcome::Failed(_) => {
                failed = failed + 1;
            },
            TaskOutcome::Cancelled => {
                cancelled = cancelled + 1;
            },
        }
        i = i + 1;
    }
    proof {
        assert(outcomes@.take(outcomes@.len() as int) =~= outcomes@);
    }
    RunSummary { skipped, completed, failed, cancelled }
}

/// The size a probe contributes to the run's expected total: the
/// advertised length of a successful response, zero when the probe
/// failed, got an unsuccessful status, or learned no length.
pub fn probe_size(responded: bool, success: bool, content_length: Option<u64>) -> (r: u64)
    ensures
        r == (if responded && success {
            content_length.unwrap_or(0)
        } else {
            0u64
        }),
{
    if responded && success {
        match content_length {
            Some(n) => n,
            None => 0,
        }
    } else {
        0
    }
}

/// The sum of a list of byte sizes.
pub open spec fn sum_sizes(s: Seq<u64>) -> int
    decreases s.len(),
{
    if s.len() == 0 {
        0
    } else {
        sum_sizes(s.drop_last()) + s.last()
    }
}

/// A sum of sizes is never negative.
proof fn lemma_sum_sizes_nonneg(s: Seq<u64>)
    ensures
        sum_sizes(s) >= 0,
    decreases s.len(),
{
    if s.len() > 0 {
        lemma_sum_sizes_nonneg(s.drop_last());
    }
}

/// Adds up the probed sizes for the progress denominator,
/// saturating at the largest representable total.
pub fn total_expected_size(sizes: &Vec<u64>) -> (r: u64)
    ensures
        sum_sizes(sizes@) <= u64::MAX ==> r == sum_sizes(sizes@),
        sum_sizes(sizes@) > u64::MAX ==> r == u64::MAX,
{
    let mut acc: u64 = 0;
    let mut i: usize = 0;
    while i < sizes.len()
        invariant
            0 <= i <= sizes@.len(),
            sum_sizes(sizes@.take(i as int)) <= u64::MAX ==> acc == sum_sizes(
                sizes@.take(i as int),
            ),
            sum_sizes(sizes@.take(i as int)) > u64::MAX ==> acc == u64::MAX,
        decreases sizes@.len() - i,
    {
        proof {
            assert(sizes@.take(i + 1).drop_last() =~= sizes@.take(i as int));
            assert(sizes@.take(i + 1).last() == sizes@[i as int]);
            lemma_sum_sizes_nonneg(sizes@.take(i as int));
        }
        let x: u64 = sizes[i];
        if acc > u64::MAX - x {
            acc = u64::MAX;
        } else {
            acc = acc + x;
        }
        i = i + 1;
    }
    proof {
        assert(sizes@.take(sizes@.len() as int) =~= sizes@);
    }
    acc
}

} // verus!

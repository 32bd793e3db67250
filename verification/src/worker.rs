//! The per-task transfer state machine.
//!
//! A `DownloadWorker` drives one task through
//! `Ready -> AwaitingResponse -> Streaming -> Terminal`. The
//! application performs the network and disk work and feeds the
//! worker what happened at each suspension point; the worker decides
//! the next step and is verified to keep the task's guarantees: a
//! skipped or cancelled task never creates a file, a cancelled or
//! size-mismatched stream always deletes the partial file, and the
//! expected size is only ever corrected upward.
//!
//! Bytes already reported for a stream that is later cancelled are
//! not rolled back: the worker keeps its `written` count, matching
//! the progress the run reported before the cleanup decision.

use vstd::prelude::*;

use crate::download::{FailReason, TaskOutcome};

verus! {

/// Where one task stands between its suspension points.
#[derive(Debug)]
pub enum WorkerPhase {
    /// The permit is held; nothing has happened yet.
    Ready,
    /// The request was issued; no response has arrived.
    AwaitingResponse,
    /// The destination file exists and body chunks are being written.
    Streaming,
    /// The task reached its terminal outcome.
    Terminal(TaskOutcome),
}

/// What the application must do after `on_start`.
#[derive(Debug)]
pub enum StartStep {
    /// Cancellation was already signalled: stop without any I/O.
    Cancelled,
    /// The target file exists: report the full expected size to the
    /// aggregator and stop.
    Skip {
        /// The bytes to report so the overall progress still completes.
        report: u64,
    },
    /// Issue the request for the body.
    IssueRequest,
}

/// What the application must do after `on_response`.
#[derive(Debug)]
pub enum ResponseStep {
    /// The status was unsuccessful: report the expected size so the
    /// totals stay consistent, record the failure, and stop.
    Fail {
        /// The bytes to report to the aggregator.
        report: u64,
    },
    /// Create the destination file and stream the body; raise the
    /// run's total by the correction the response revealed.
    BeginStream {
        /// The upward correction to the run's expected total.
        raise_total: u64,
    },
}

/// What the application must do after `on_stream_end`.
#[derive(Debug)]
pub enum EndStep {
    /// The on-disk size is wrong: delete the file.
    Mismatch,
    /// The file is complete: keep it.
    Keep,
}

/// The verified state of one task's transfer.
pub struct DownloadWorker {
    /// How many bytes the transfer should deliver; zero until a
    /// probe or a response reveals it.
    pub expected_size: u64,
    /// The body bytes written so far.
    pub written: u64,
    /// Whether a file created by this worker exists at the target.
    pub file_created: bool,
    /// Where the task stands.
    pub phase: WorkerPhase,
}

impl DownloadWorker {
    /// The worker's invariant: no phase ever leaves a file behind
    /// that its outcome disowns. A skipped or cancelled task has no
    /// file of its own, a failed size check has deleted it, and a
    /// stream only runs while the file exists.
    pub open spec fn wf(self) -> bool {
        &&& self.phase is Ready ==> !self.file_created && self.written == 0
        &&& self.phase is AwaitingResponse ==> !self.file_created && self.written == 0
        &&& self.phase is Streaming ==> self.file_created
        &&& self.phase matches WorkerPhase::Terminal(TaskOutcome::Skipped) ==> !self.file_created
        &&& self.phase matches WorkerPhase::Terminal(TaskOutcome::Cancelled)
            ==> !self.file_created
        &&& self.phase matches WorkerPhase::Terminal(
            TaskOutcome::Failed(FailReason::SizeMismatch { expected: _, actual: _ }),
        ) ==> !self.file_created
    }

    /// A fresh worker for one task, holding the size the prober
    /// expects.
    pub fn new(expected_size: u64) -> (w: Self)
        ensures
            w.wf(),
            w.phase is Ready,
            w.expected_size == expected_size,
            w.written == 0,
            !w.file_created,
    {
        DownloadWorker { expected_size, written: 0, file_created: false, phase: WorkerPhase::Ready }
    }

    /// The first decision, made while the permit is held and before
    /// any I/O: stop if cancellation is already signalled, skip if
    /// the target file exists (reporting its full expected size),
    /// otherwise issue the request. A skipped task performs no
    /// request and no verification of the existing file.
    pub fn on_start(&mut self, cancelled: bool, file_exists: bool) -> (a: StartStep)
        requires
            old(self).wf(),
            old(self).phase is Ready,
        ensures
            final(self).wf(),
            final(self).expected_size == old(self).expected_size,
            final(self).written == 0,
            !final(self).file_created,
            cancelled ==> a is Cancelled && final(self).phase == WorkerPhase::Terminal(
                TaskOutcome::Cancelled,
            ),
            !cancelled && file_exists ==> (a matches StartStep::Skip { report } && report == old(
                self,
            ).expected_size) && final(self).phase == WorkerPhase::Terminal(TaskOutcome::Skipped),
            !cancelled && !file_exists ==> a is IssueRequest && final(self).phase
                is AwaitingResponse,
    {
        if cancelled {
            self.phase = WorkerPhase::Terminal(TaskOutcome::Cancelled);
            StartStep::Cancelled
        } else if file_exists {
            self.phase = WorkerPhase::Terminal(TaskOutcome::Skipped);
            StartStep::Skip { report: self.expected_size }
        } else {
            self.phase = WorkerPhase::AwaitingResponse;
            StartStep::IssueRequest
        }
    }

    /// Cancellation won the race against the response: the task ends
    /// cancelled, and no file was ever created.
    pub fn on_request_cancelled(&mut self)
        requires
            old(self).wf(),
            old(self).phase is AwaitingResponse,
        ensures
            final(self).wf(),
            final(self).expected_size == old(self).expected_size,
            final(self).written == 0,
            !final(self).file_created,
            final(self).phase == WorkerPhase::Terminal(TaskOutcome::Cancelled),
    {
        self.phase = WorkerPhase::Terminal(TaskOutcome::Cancelled);
    }

    /// The response arrived. An unsuccessful status fails the task
    /// with that status, still reporting the expected size so the
    /// run's totals stay consistent. A successful one starts the
    /// stream, first correcting an unknown expected size upward by
    /// the length the response advertised.
    pub fn on_response(&mut self, success: bool, status: u16, content_length: Option<u64>) -> (a:
        ResponseStep)
        requires
            old(self).wf(),
            old(self).phase is AwaitingResponse,
        ensures
            final(self).wf(),
            final(self).written == 0,
            !success ==> {
                &&& final(self).phase == WorkerPhase::Terminal(
                    TaskOutcome::Failed(FailReason::HttpStatus(status)),
                )
                &&& !final(self).file_created
                &&& final(self).expected_size == old(self).expected_size
                &&& a matches ResponseStep::Fail { report } && report == old(self).expected_size
            },
            success ==> {
                let correction = if old(self).expected_size == 0 {
                    content_length.unwrap_or(0)
                } else {
                    0u64
                };
                &&& final(self).phase is Streaming
                &&& final(self).file_created
                &&& final(self).expected_size == old(self).expected_size + correction
                &&& a matches ResponseStep::BeginStream { raise_total } && raise_total
                    == correction
            },
    {
        if !success {
            self.phase = WorkerPhase::Terminal(TaskOutcome::Failed(FailReason::HttpStatus(status)));
            ResponseStep::Fail { report: self.expected_size }
        } else {
            let correction: u64 = if self.expected_size == 0 {
                match content_length {
                    Some(n) => n,
                    None => 0,
                }
            } else {
                0
            };
            self.expected_size = self.expected_size + correction;
            self.file_created = true;
            self.phase = WorkerPhase::Streaming;
            ResponseStep::BeginStream { raise_total: correction }
        }
    }

    /// One body chunk was written to the file: the task's byte count
    /// only ever grows, saturating at the largest representable
    /// count.
    pub fn on_chunk_written(&mut self, len: u64)
        requires
            old(self).wf(),
            old(self).phase is Streaming,
        ensures
            final(self).wf(),
            final(self).phase is Streaming,
            final(self).file_created,
            final(self).expected_size == old(self).expected_size,
            old(self).written + len <= u64::MAX ==> final(self).written == old(self).written + len,
            old(self).written + len > u64::MAX ==> final(self).written == u64::MAX,
            final(self).written >= old(self).written,
    {
        if self.written > u64::MAX - len {
            self.written = u64::MAX;
        } else {
            self.written = self.written + len;
        }
    }

    /// Cancellation fired between two chunk writes: the partial file
    /// must be deleted before the task ends, so no partial artifact
    /// is ever left on disk for a cancelled task.
    pub fn on_chunk_cancelled(&mut self) -> (delete_file: bool)
        requires
            old(self).wf(),
            old(self).phase is Streaming,
        ensures
            final(self).wf(),
            delete_file,
            final(self).expected_size == old(self).expected_size,
            final(self).written == old(self).written,
            !final(self).file_created,
            final(self).phase == WorkerPhase::Terminal(TaskOutcome::Cancelled),
    {
        self.file_created = false;
        self.phase = WorkerPhase::Terminal(TaskOutcome::Cancelled);
        true
    }

    /// The request or the stream failed on the wire or on disk after
    /// the client's retries were exhausted: the task fails with that
    /// description. A partial file, if one was created, stays in
    /// place: only cancellation and a failed size check clean up.
    pub fn on_transport_error(&mut self, io: bool, message: String)
        requires
            old(self).wf(),
            old(self).phase is AwaitingResponse || old(self).phase is Streaming,
        ensures
            final(self).wf(),
            final(self).expected_size == old(self).expected_size,
            final(self).written == old(self).written,
            final(self).file_created == old(self).file_created,
            io ==> (final(self).phase matches WorkerPhase::Terminal(
                TaskOutcome::Failed(FailReason::Io(m)),
            ) && m == message),
            !io ==> (final(self).phase matches WorkerPhase::Terminal(
                TaskOutcome::Failed(FailReason::Network(m)),
            ) && m == message),
    {
        let reason = if io {
            FailReason::Io(message)
        } else {
            FailReason::Network(message)
        };
        self.phase = WorkerPhase::Terminal(TaskOutcome::Failed(reason));
    }

    /// The stream ended. When the run had a byte total at its start,
    /// the length now on disk has to agree with `expected_size`; a
    /// disagreement deletes the file and fails the task, and
    /// agreement completes it with the bytes it wrote.
    pub fn on_stream_end(&mut self, run_total_known: bool, disk_len: u64) -> (a: EndStep)
        requires
            old(self).wf(),
            old(self).phase is Streaming,
        ensures
            final(self).wf(),
            final(self).expected_size == old(self).expected_size,
            final(self).written == old(self).written,
            run_total_known && disk_len != old(self).expected_size ==> {
                &&& a is Mismatch
                &&& final(self).phase == WorkerPhase::Terminal(
                    TaskOutcome::Failed(
                        FailReason::SizeMismatch {
                            expected: old(self).expected_size,
                            actual: disk_len,
                        },
                    ),
                )
                &&& !final(self).file_created
            },
            !(run_total_known && disk_len != old(self).expected_size) ==> {
                &&& a is Keep
                &&& final(self).phase == WorkerPhase::Terminal(
                    TaskOutcome::Completed(old(self).written),
                )
                &&& final(self).file_created
            },
    {
        if run_total_known && disk_len != self.expected_size {
            let expected: u64 = self.expected_size;
            self.file_created = false;
            self.phase = WorkerPhase::Terminal(
                TaskOutcome::Failed(FailReason::SizeMismatch { expected, actual: disk_len }),
            );
            EndStep::Mismatch
        } else {
            let written: u64 = self.written;
            self.phase = WorkerPhase::Terminal(TaskOutcome::Completed(written));
            EndStep::Keep
        }
    }
}

/// A task that ends cancelled leaves no file of its own at the
/// target path, whether cancellation struck before the request,
/// before the response, or in the middle of the stream.
pub proof fn lemma_cancelled_leaves_no_file(w: DownloadWorker)
    requires
        w.wf(),
        w.phase == WorkerPhase::Terminal(TaskOutcome::Cancelled),
    ensures
        !w.file_created,
{
}

/// A task that fails its size check leaves no file at the target
/// path: the mismatched file is always deleted.
pub proof fn lemma_mismatch_leaves_no_file(w: DownloadWorker, expected: u64, actual: u64)
    requires
        w.wf(),
        w.phase == WorkerPhase::Terminal(
            TaskOutcome::Failed(FailReason::SizeMismatch { expected, actual }),
        ),
    ensures
        !w.file_created,
{
}

} // verus!

//! The steps in the life of one job: the enrolment of a started worker, the
//! end of a launch that found no command to start one, the watcher that
//! polls a started worker, and the cancellation that races the watcher, each
//! with the event it reports. The registry decides who owns a job: whoever
//! removes its entry, and that one alone reports its end.

use crate::event::{report_of, DownloadPayload, PayloadView, Status};
use crate::fallback::{exhausted_text, FallbackPlan};
use crate::ident::{base_of, download_id_text, first_free, fresh_download_id};
use crate::registry::{claim, JobRegistry};
use vstd::prelude::*;
use vstd::string::*;

verus! {

/// Makes the job whose worker started at `millis` live: mints an identifier
/// that no live job has, registers the worker's handle under it, and gives
/// the identifier. To be called while nobody else can touch the registry.
pub fn enroll<H>(registry: &mut JobRegistry<H>, millis: u128, handle: H) -> (id: String)
    ensures
        !old(registry)@.contains_key(id@),
        final(registry)@ == old(registry)@.insert(id@, handle),
        exists|stamp: nat|
            first_free(old(registry)@, base_of(millis as nat), stamp) && id@ == #[trigger] download_id_text(
                stamp,
            ),
{
    let id = fresh_download_id(registry, millis);
    let outcome = registry.register(id.clone(), handle);
    assert(outcome is Ok);
    id
}

/// How long, in milliseconds, the watcher sleeps between two looks: short
/// enough that a cancellation is seen at once, long enough not to spin.
pub const POLL_INTERVAL_MILLIS: u64 = 100;

/// What a look at a worker showed.
#[derive(Clone, Debug)]
pub enum Poll {
    /// The worker has not exited.
    Running,
    /// The worker has exited, with or without success; `diagnostic` is what
    /// it left to explain itself, where that was captured.
    Exited { success: bool, diagnostic: Option<String> },
    /// The system could not tell.
    Fault,
}

/// What a look at a worker showed, as plain values.
pub enum PollView {
    Running,
    Exited { success: bool, diagnostic: Option<Seq<char>> },
    Fault,
}

impl View for Poll {
    type V = PollView;

    open spec fn view(&self) -> PollView {
        match self {
            Poll::Running => PollView::Running,
            Poll::Exited { success, diagnostic } => PollView::Exited {
                success: *success,
                diagnostic: match diagnostic {
                    Some(text) => Some(text@),
                    None => None,
                },
            },
            Poll::Fault => PollView::Fault,
        }
    }
}

/// What the watcher saw in one round, as plain values.
pub open spec fn sight(seen: Option<Poll>) -> Option<PollView> {
    match seen {
        Some(poll) => Some(poll@),
        None => None,
    }
}

/// What the watcher does after one look.
#[derive(Debug)]
pub enum WatchStep {
    /// Nothing to report yet: sleep, then look again.
    Wait,
    /// The job is over and the watcher owns it: send the event and stop.
    Report(DownloadPayload),
    /// Somebody else has claimed the job and reports it: stop, and send
    /// nothing.
    Stop,
}

/// What the watcher does after one look, as plain values.
pub enum WatchStepView {
    Wait,
    Report(PayloadView),
    Stop,
}

impl View for WatchStep {
    type V = WatchStepView;

    open spec fn view(&self) -> WatchStepView {
        match self {
            WatchStep::Wait => WatchStepView::Wait,
            WatchStep::Report(event) => WatchStepView::Report(event@),
            WatchStep::Stop => WatchStepView::Stop,
        }
    }
}

/// The status with which the watcher reports a live job after one look, if
/// the look showed that the job is over.
pub open spec fn watch_status(seen: Option<PollView>) -> Option<Status> {
    match seen {
        Some(PollView::Exited { success: true, .. }) => Some(Status::Success),
        Some(PollView::Exited { success: false, .. }) => Some(Status::Error),
        Some(PollView::Fault) => Some(Status::Error),
        Some(PollView::Running) => None,
        None => None,
    }
}

/// The text that goes with the watcher's report. A worker that failed speaks
/// for itself where its diagnostic was captured.
pub open spec fn watch_message(seen: Option<PollView>) -> Seq<char> {
    match seen {
        Some(PollView::Exited { success: true, .. }) => "Download completed successfully!"@,
        Some(PollView::Exited { success: false, diagnostic: None }) => "Download failed"@,
        Some(PollView::Exited { success: false, diagnostic: Some(text) }) => "Download failed: "@
            + text,
        Some(PollView::Fault) => "Process error"@,
        Some(PollView::Running) => Seq::empty(),
        None => Seq::empty(),
    }
}

/// What the watcher of the job `id` does after one look. `live` says whether
/// the job was still in the registry; `seen` is what the look at its worker
/// showed, where there was a worker to look at.
pub open spec fn watch_verdict(live: bool, seen: Option<PollView>, id: Seq<char>) -> WatchStepView {
    if !live {
        WatchStepView::Stop
    } else {
        match watch_status(seen) {
            Some(status) => WatchStepView::Report(report_of(status, watch_message(seen), id)),
            None => WatchStepView::Wait,
        }
    }
}

/// One round of the watcher of the job `id`, to be made while nobody else can
/// touch the registry. `seen` is what a look at the job's worker showed, or
/// `None` where the registry had no worker for `id`.
///
/// Whoever removes a job from the registry reports its end, and nobody else.
/// A job that is no longer live was claimed by a cancellation, which reports
/// it: the watcher stops without an event and touches nothing. A live job
/// whose worker has exited, or could not be examined, is removed and
/// reported by the watcher. Otherwise the job stays and the watcher waits.
pub fn watch_step<H>(registry: &mut JobRegistry<H>, id: &String, seen: Option<Poll>) -> (step:
    WatchStep)
    ensures
        step@ == watch_verdict(old(registry)@.contains_key(id@), sight(seen), id@),
        step is Report ==> final(registry)@ == old(registry)@.remove(id@),
        !(step is Report) ==> final(registry)@ == old(registry)@,
{
    if !registry.contains(id) {
        return WatchStep::Stop;
    }
    match seen {
        Some(Poll::Exited { success, diagnostic }) => {
            let _ = registry.take(id);
            if success {
                WatchStep::Report(
                    DownloadPayload::about(
                        Status::Success,
                        String::from_str("Download completed successfully!"),
                        id,
                    ),
                )
            } else {
                let message = match diagnostic {
                    Some(text) => String::from_str("Download failed: ").concat(text.as_str()),
                    None => String::from_str("Download failed"),
                };
                WatchStep::Report(DownloadPayload::about(Status::Error, message, id))
            }
        },
        Some(Poll::Fault) => {
            let _ = registry.take(id);
            WatchStep::Report(
                DownloadPayload::about(Status::Error, String::from_str("Process error"), id),
            )
        },
        _ => WatchStep::Wait,
    }
}

/// Why a cancellation did not go through.
#[derive(Clone, Debug)]
pub enum CancelError {
    /// The job is not live: it was never registered, or it is over.
    NotFound,
    /// The job was claimed, but its worker could not be terminated.
    KillFailed(String),
}

/// Why a cancellation did not go through, as plain values.
pub enum CancelErrorView {
    NotFound,
    KillFailed(Seq<char>),
}

impl View for CancelError {
    type V = CancelErrorView;

    open spec fn view(&self) -> CancelErrorView {
        match self {
            CancelError::NotFound => CancelErrorView::NotFound,
            CancelError::KillFailed(cause) => CancelErrorView::KillFailed(cause@),
        }
    }
}

/// The text of an error.
pub open spec fn cancel_error_text(error: CancelErrorView) -> Seq<char> {
    match error {
        CancelErrorView::NotFound => "Download not found or already completed"@,
        CancelErrorView::KillFailed(cause) => "Failed to cancel download: "@ + cause,
    }
}

impl CancelError {
    /// The text of the error, for the caller of the cancellation.
    pub fn message(&self) -> (text: String)
        ensures
            text@ == cancel_error_text(self@),
    {
        match self {
            CancelError::NotFound => String::from_str("Download not found or already completed"),
            CancelError::KillFailed(cause) => String::from_str("Failed to cancel download: ").concat(
                cause.as_str(),
            ),
        }
    }
}

/// The first half of a cancellation: claims the job `id`. The caller who gets
/// the handle owns the job: it has to terminate the worker and to report the
/// end of the job. A job that is not live is an error; the registry then
/// stays as it was and there is nothing to report.
pub fn claim_for_cancel<H>(registry: &mut JobRegistry<H>, id: &String) -> (claimed: Result<
    H,
    CancelError,
>)
    ensures
        final(registry)@ == claim(old(registry)@, id@).0,
        claimed is Ok <==> old(registry)@.contains_key(id@),
        claimed matches Ok(handle) ==> Some(handle) == claim(old(registry)@, id@).1,
        claimed matches Err(error) ==> error@ == CancelErrorView::NotFound && final(registry)@
            == old(registry)@,
{
    match registry.take(id) {
        Some(handle) => Ok(handle),
        None => {
            assert(registry@ =~= old(registry)@);
            Err(CancelError::NotFound)
        },
    }
}

/// The end of a cancellation that claimed its job: the one terminal event of
/// the job, and what the caller of the cancellation is told.
#[derive(Debug)]
pub struct CancelReport {
    pub event: DownloadPayload,
    pub outcome: Result<(), CancelError>,
}

/// The end of a cancellation, as plain values.
pub struct CancelReportView {
    pub event: PayloadView,
    pub outcome: Result<(), CancelErrorView>,
}

impl View for CancelReport {
    type V = CancelReportView;

    open spec fn view(&self) -> CancelReportView {
        CancelReportView {
            event: self.event@,
            outcome: match self.outcome {
                Ok(_) => Ok(()),
                Err(error) => Err(error@),
            },
        }
    }
}

/// A cause, if there is one, as plain values.
pub open spec fn causing(failure: Option<String>) -> Option<Seq<char>> {
    match failure {
        Some(cause) => Some(cause@),
        None => None,
    }
}

/// How a cancellation that claimed the job `id` ends, given how terminating
/// the worker went: `None` where it succeeded, the cause where it failed.
/// Either way the job is cancelled, since nobody supervises it any more, and
/// the claimant reports that; the caller learns whether the worker was
/// terminated.
pub open spec fn cancel_outcome(id: Seq<char>, failure: Option<Seq<char>>) -> CancelReportView {
    match failure {
        None => CancelReportView {
            event: report_of(Status::Cancelled, "Download cancelled successfully"@, id),
            outcome: Ok(()),
        },
        Some(cause) => CancelReportView {
            event: report_of(Status::Cancelled, "Download was cancelled"@, id),
            outcome: Err(CancelErrorView::KillFailed(cause)),
        },
    }
}

/// The second half of a cancellation, after the worker of the claimed job
/// `id` was told to terminate: the terminal event of the job, which the
/// claimant owes whatever came of that, and the result for the caller, an
/// error where terminating failed with `failure` as its cause.
pub fn cancel_report(id: &String, failure: Option<String>) -> (report: CancelReport)
    ensures
        report@ == cancel_outcome(id@, causing(failure)),
{
    match failure {
        None => CancelReport {
            event: DownloadPayload::about(
                Status::Cancelled,
                String::from_str("Download cancelled successfully"),
                id,
            ),
            outcome: Ok(()),
        },
        Some(cause) => CancelReport {
            event: DownloadPayload::about(
                Status::Cancelled,
                String::from_str("Download was cancelled"),
                id,
            ),
            outcome: Err(CancelError::KillFailed(cause)),
        },
    }
}

/// How a launch that found no command to start the worker ends: the event
/// to send, and the same text as the error for the caller.
#[derive(Clone, Debug)]
pub struct LaunchFailure {
    pub event: DownloadPayload,
    pub message: String,
}

/// The end of the launch of the job `id` where every command was tried and
/// none started: the job has failed, with a text that carries the latest
/// failure. While a command is waiting, or after one has started, the launch
/// has not failed.
pub fn launch_failure(plan: &FallbackPlan, id: &String) -> (failed: Option<LaunchFailure>)
    ensures
        failed is Some <==> plan@.exhausted(),
        failed matches Some(end) ==> end.message@ == exhausted_text(
            plan@.action,
            plan@.last_error,
        ) && end.event@ == report_of(Status::Error, end.message@, id@),
{
    match plan.failure() {
        Some(message) => Some(
            LaunchFailure {
                event: DownloadPayload::about(Status::Error, message.clone(), id),
                message,
            },
        ),
        None => None,
    }
}

} // verus!

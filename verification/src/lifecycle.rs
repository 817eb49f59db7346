//! The life of a job as a state machine, and what holds of every run of it.
//!
//! A job is launched, then watched. The watcher and any number of
//! cancellations act on it in turn, in any order, each in steps that nobody
//! interrupts: a look of the watcher, the claim of a cancellation, and the
//! report of the cancellation that holds the claim. Whoever removes the job
//! from the registry reports its end, and nobody else. Other jobs come and go
//! meanwhile. Each step changes the registry and sends events exactly as the
//! functions of `registry` and `supervisor` say; what is proved here holds of
//! every order in which the steps can come.

use crate::event::{report_of, PayloadView, Status};
use crate::registry::claim;
use crate::supervisor::{cancel_outcome, watch_verdict, PollView, WatchStepView};
use vstd::prelude::*;

verus! {

/// Where a job stands. The last three states are terminal.
#[derive(Clone, Copy, Debug, PartialEq, Eq, Structural)]
pub enum JobState {
    Launching,
    Running,
    Succeeded,
    Failed,
    Cancelled,
}

impl JobState {
    /// A terminal state is never left.
    pub open spec fn is_terminal(self) -> bool {
        self == JobState::Succeeded || self == JobState::Failed || self == JobState::Cancelled
    }

    /// Whether the state is terminal.
    pub fn terminal(self) -> (yes: bool)
        ensures
            yes == self.is_terminal(),
    {
        match self {
            JobState::Launching => false,
            JobState::Running => false,
            _ => true,
        }
    }
}

/// The state that a running job enters with a terminal report.
pub open spec fn state_after(status: Status) -> JobState {
    match status {
        Status::Downloading => JobState::Running,
        Status::Success => JobState::Succeeded,
        Status::Error => JobState::Failed,
        Status::Cancelled => JobState::Cancelled,
    }
}

/// The state that a running job enters with a terminal report.
pub fn next_state(status: Status) -> (state: JobState)
    ensures
        state == state_after(status),
{
    match status {
        Status::Downloading => JobState::Running,
        Status::Success => JobState::Succeeded,
        Status::Error => JobState::Failed,
        Status::Cancelled => JobState::Cancelled,
    }
}

/// One job, the registry it lives in, and everything that was reported of
/// the job so far.
pub struct JobRun<H> {
    /// The identifier of the job.
    pub id: Seq<char>,
    /// The registry of live jobs, this one and the others.
    pub jobs: Map<Seq<char>, H>,
    /// Where the job stands.
    pub state: JobState,
    /// Whether its watcher is still polling.
    pub watching: bool,
    /// Whether a cancellation has claimed the job and has yet to say how
    /// terminating its worker went.
    pub claimed: bool,
    /// The events sent about the job, oldest first.
    pub reports: Seq<PayloadView>,
}

/// One step in the life of a job.
pub enum Move<H> {
    /// The launch ends: the worker started and its handle is registered, or
    /// no command could start it and the launch fails with the given text.
    Launch { outcome: Result<H, Seq<char>> },
    /// The watcher makes one round and sees `poll` if the job is still live.
    Look { poll: PollView },
    /// A cancellation is asked for and tries to claim the job.
    Claim,
    /// The cancellation that claimed the job has told its worker to
    /// terminate: that went well (`None`) or failed with the given cause.
    Settle { failure: Option<Seq<char>> },
    /// Other jobs are registered or leave: the registry becomes `jobs`, in
    /// which this job is as it was.
    Elsewhere { jobs: Map<Seq<char>, H> },
}

/// A job whose identifier was just minted, beside the jobs that are live.
pub open spec fn fresh<H>(id: Seq<char>, jobs: Map<Seq<char>, H>) -> JobRun<H> {
    JobRun {
        id,
        jobs,
        state: JobState::Launching,
        watching: false,
        claimed: false,
        reports: Seq::empty(),
    }
}

/// Whether two registries hold the same for the job `id`.
pub open spec fn same_for<H>(id: Seq<char>, jobs: Map<Seq<char>, H>, other: Map<Seq<char>, H>) -> bool {
    &&& jobs.contains_key(id) == other.contains_key(id)
    &&& jobs.contains_key(id) ==> jobs[id] == other[id]
}

/// The job after one step.
pub open spec fn advance<H>(run: JobRun<H>, step: Move<H>) -> JobRun<H> {
    match step {
        Move::Launch { outcome } => {
            if run.state != JobState::Launching {
                run
            } else {
                let opened = run.reports.push(
                    report_of(Status::Downloading, "Starting download..."@, run.id),
                );
                match outcome {
                    Ok(handle) => JobRun {
                        jobs: run.jobs.insert(run.id, handle),
                        state: JobState::Running,
                        watching: true,
                        reports: opened,
                        ..run
                    },
                    Err(text) => JobRun {
                        state: JobState::Failed,
                        reports: opened.push(report_of(Status::Error, text, run.id)),
                        ..run
                    },
                }
            }
        },
        Move::Look { poll } => {
            if !run.watching {
                run
            } else {
                let live = run.jobs.contains_key(run.id);
                let seen = if live {
                    Some(poll)
                } else {
                    None
                };
                match watch_verdict(live, seen, run.id) {
                    WatchStepView::Wait => run,
                    WatchStepView::Report(event) => JobRun {
                        jobs: run.jobs.remove(run.id),
                        state: state_after(event.status),
                        watching: false,
                        reports: run.reports.push(event),
                        ..run
                    },
                    WatchStepView::Stop => JobRun { watching: false, ..run },
                }
            }
        },
        Move::Claim => {
            match claim(run.jobs, run.id).1 {
                None => run,
                Some(_) => JobRun {
                    jobs: claim(run.jobs, run.id).0,
                    state: JobState::Cancelled,
                    claimed: true,
                    ..run
                },
            }
        },
        Move::Settle { failure } => {
            if !run.claimed {
                run
            } else {
                JobRun {
                    claimed: false,
                    reports: run.reports.push(cancel_outcome(run.id, failure).event),
                    ..run
                }
            }
        },
        Move::Elsewhere { jobs } => {
            if same_for(run.id, run.jobs, jobs) {
                JobRun { jobs, ..run }
            } else {
                run
            }
        },
    }
}

/// The job after the given steps, taken from a freshly minted identifier
/// beside the jobs that were live then.
pub open spec fn play<H>(id: Seq<char>, jobs: Map<Seq<char>, H>, steps: Seq<Move<H>>) -> JobRun<H>
    decreases steps.len(),
{
    if steps.len() == 0 {
        fresh(id, jobs)
    } else {
        advance(play(id, jobs, steps.drop_last()), steps.last())
    }
}

/// How many of the events are terminal.
pub open spec fn terminal_count(reports: Seq<PayloadView>) -> nat
    decreases reports.len(),
{
    if reports.len() == 0 {
        0
    } else {
        terminal_count(reports.drop_last()) + if reports.last().status.is_terminal() {
            1nat
        } else {
            0nat
        }
    }
}

/// How many terminal events a job in the given condition has behind it: one
/// once it is over and whoever removed it from the registry has reported,
/// none before.
pub open spec fn terminal_reports_due<H>(run: JobRun<H>) -> nat {
    if run.state.is_terminal() && !run.claimed {
        1
    } else {
        0
    }
}

/// What holds of a job at every moment of every run.
spec fn coherent<H>(run: JobRun<H>) -> bool {
    &&& forall|i: int|
        0 <= i < run.reports.len() ==> (#[trigger] run.reports[i]).download_id == Some(run.id)
    &&& run.jobs.contains_key(run.id) <==> run.state == JobState::Running
    &&& terminal_count(run.reports) == terminal_reports_due(run)
    &&& run.claimed ==> run.state == JobState::Cancelled
    &&& match run.state {
        JobState::Launching => !run.watching && run.reports.len() == 0,
        JobState::Running => {
            &&& run.watching
            &&& run.reports.len() == 1
            &&& run.reports[0].status == Status::Downloading
        },
        JobState::Succeeded => {
            &&& !run.watching
            &&& run.reports.len() == 2
            &&& run.reports[0].status == Status::Downloading
            &&& run.reports[1].status == Status::Success
        },
        JobState::Failed => {
            &&& !run.watching
            &&& run.reports.len() == 2
            &&& run.reports[0].status == Status::Downloading
            &&& run.reports[1].status == Status::Error
        },
        JobState::Cancelled => {
            &&& run.reports.len() == (if run.claimed {
                1int
            } else {
                2
            })
            &&& run.reports[0].status == Status::Downloading
            &&& !run.claimed ==> run.reports[1].status == Status::Cancelled
        },
    }
}

proof fn lemma_count_push(reports: Seq<PayloadView>, event: PayloadView)
    ensures
        terminal_count(reports.push(event)) == terminal_count(reports) + if event.status.is_terminal() {
            1nat
        } else {
            0nat
        },
{
    assert(reports.push(event).drop_last() =~= reports);
}

proof fn lemma_advance_coherent<H>(run: JobRun<H>, step: Move<H>)
    requires
        coherent(run),
    ensures
        coherent(advance(run, step)),
        advance(run, step).id == run.id,
{
    let opened = run.reports.push(report_of(Status::Downloading, "Starting download..."@, run.id));
    lemma_count_push(run.reports, report_of(Status::Downloading, "Starting download..."@, run.id));
    match step {
        Move::Launch { outcome: Err(text) } => {
            lemma_count_push(opened, report_of(Status::Error, text, run.id));
        },
        Move::Launch { outcome: Ok(_) } => {},
        Move::Look { poll } => {
            let live = run.jobs.contains_key(run.id);
            let seen = if live {
                Some(poll)
            } else {
                None
            };
            match watch_verdict(live, seen, run.id) {
                WatchStepView::Report(event) => {
                    lemma_count_push(run.reports, event);
                },
                _ => {},
            }
        },
        Move::Claim => {},
        Move::Settle { failure } => {
            lemma_count_push(run.reports, cancel_outcome(run.id, failure).event);
        },
        Move::Elsewhere { jobs } => {},
    }
}

proof fn lemma_play_coherent<H>(id: Seq<char>, jobs: Map<Seq<char>, H>, steps: Seq<Move<H>>)
    requires
        !jobs.contains_key(id),
    ensures
        coherent(play(id, jobs, steps)),
        play(id, jobs, steps).id == id,
    decreases steps.len(),
{
    if steps.len() > 0 {
        let before = steps.drop_last();
        lemma_play_coherent(id, jobs, before);
        lemma_advance_coherent(play(id, jobs, before), steps.last());
    }
}

/// A job sends exactly one terminal event, whatever the order in which the
/// watcher and the cancellations take their steps and however terminating
/// the worker goes: never more than one, none while the job is launching,
/// running or claimed and not yet reported, and one from then on. The
/// identifier must not be that of a job that is live when it is minted.
pub proof fn law_one_terminal_report<H>(
    id: Seq<char>,
    jobs: Map<Seq<char>, H>,
    steps: Seq<Move<H>>,
)
    requires
        !jobs.contains_key(id),
    ensures
        terminal_count(play(id, jobs, steps).reports) <= 1,
        terminal_count(play(id, jobs, steps).reports) == terminal_reports_due(
            play(id, jobs, steps),
        ),
        terminal_count(play(id, jobs, steps).reports) == 1 <==> play(
            id,
            jobs,
            steps,
        ).state.is_terminal() && !play(id, jobs, steps).claimed,
{
    lemma_play_coherent(id, jobs, steps);
}

/// In every run the terminal event of a job says how the job ended: success
/// for a job that succeeded, an error for one that failed, and cancelled for
/// one that a cancellation claimed, whether or not the watcher looked at it
/// afterwards.
pub proof fn law_report_tells_the_end<H>(
    id: Seq<char>,
    jobs: Map<Seq<char>, H>,
    steps: Seq<Move<H>>,
)
    requires
        !jobs.contains_key(id),
        play(id, jobs, steps).state.is_terminal(),
        !play(id, jobs, steps).claimed,
    ensures
        play(id, jobs, steps).reports.len() == 2,
        state_after(play(id, jobs, steps).reports[1].status) == play(id, jobs, steps).state,
{
    lemma_play_coherent(id, jobs, steps);
}

/// In every run the first event of a job says that it is downloading, every
/// later one is terminal, and all of them name the job.
pub proof fn law_downloading_comes_first<H>(
    id: Seq<char>,
    jobs: Map<Seq<char>, H>,
    steps: Seq<Move<H>>,
)
    requires
        !jobs.contains_key(id),
    ensures
        play(id, jobs, steps).id == id,
        play(id, jobs, steps).state != JobState::Launching <==> play(id, jobs, steps).reports.len()
            > 0,
        play(id, jobs, steps).reports.len() > 0 ==> play(id, jobs, steps).reports[0].status
            == Status::Downloading,
        forall|i: int|
            1 <= i < play(id, jobs, steps).reports.len() ==> (#[trigger] play(
                id,
                jobs,
                steps,
            ).reports[i]).status.is_terminal(),
        forall|i: int|
            0 <= i < play(id, jobs, steps).reports.len() ==> (#[trigger] play(
                id,
                jobs,
                steps,
            ).reports[i]).download_id == Some(id),
{
    lemma_play_coherent(id, jobs, steps);
}

/// In every run the job is in the registry exactly while it is running: from
/// the moment its worker is registered to the moment the watcher or a
/// cancellation removes it.
pub proof fn law_live_while_running<H>(
    id: Seq<char>,
    jobs: Map<Seq<char>, H>,
    steps: Seq<Move<H>>,
)
    requires
        !jobs.contains_key(id),
    ensures
        play(id, jobs, steps).id == id,
        play(id, jobs, steps).jobs.contains_key(id) <==> play(id, jobs, steps).state
            == JobState::Running,
{
    lemma_play_coherent(id, jobs, steps);
}

/// No step leads out of a terminal state.
pub proof fn law_terminal_state_is_final<H>(run: JobRun<H>, step: Move<H>)
    requires
        run.state.is_terminal(),
        !run.jobs.contains_key(run.id),
    ensures
        advance(run, step).state == run.state,
        !advance(run, step).jobs.contains_key(run.id),
{
}

/// Cancelling a job that is not live, because it was never registered or is
/// already over, claims nothing: the job and the registry stay as they are,
/// no event is sent, and a cancellation without a claim sends none either.
pub proof fn law_cancel_of_unknown_reports_nothing<H>(run: JobRun<H>, failure: Option<Seq<char>>)
    requires
        !run.jobs.contains_key(run.id),
        !run.claimed,
    ensures
        advance(run, Move::Claim) == run,
        advance(advance(run, Move::Claim), Move::Settle { failure }) == run,
{
}

/// A watcher that finds its job claimed by a cancellation sends nothing: the
/// events stay as they are, whatever the look would have shown.
pub proof fn law_watcher_of_claimed_job_is_silent<H>(run: JobRun<H>, poll: PollView)
    requires
        !run.jobs.contains_key(run.id),
    ensures
        advance(run, Move::Look { poll }).reports == run.reports,
        advance(run, Move::Look { poll }).state == run.state,
        !advance(run, Move::Look { poll }).watching,
{
}

/// At most one cancellation claims a job: a claim takes the job out of the
/// registry, and from then on every further claim finds nothing, whatever
/// happens in between.
pub proof fn law_one_claim<H>(id: Seq<char>, jobs: Map<Seq<char>, H>, steps: Seq<Move<H>>)
    requires
        !jobs.contains_key(id),
    ensures
        play(id, jobs, steps).claimed ==> play(id, jobs, steps).state == JobState::Cancelled,
        play(id, jobs, steps).state != JobState::Running ==> advance(
            play(id, jobs, steps),
            Move::Claim,
        ) == play(id, jobs, steps),
{
    lemma_play_coherent(id, jobs, steps);
}

} // verus!

use download_supervisor::event::{DownloadPayload, Status, STATUS_CHANNEL};
use download_supervisor::fallback::{Action, FallbackPlan};
use download_supervisor::lifecycle::{next_state, JobState};
use download_supervisor::registry::JobRegistry;
use download_supervisor::supervisor::{
    cancel_report, claim_for_cancel, enroll, launch_failure, watch_step, CancelError, Poll,
    WatchStep,
    POLL_INTERVAL_MILLIS,
};

fn id(text: &str) -> String {
    String::from(text)
}

fn live(job: &str) -> JobRegistry<u32> {
    let mut registry: JobRegistry<u32> = JobRegistry::new();
    assert!(registry.register(id(job), 1).is_ok());
    registry
}

fn report(step: WatchStep) -> DownloadPayload {
    match step {
        WatchStep::Report(event) => event,
        WatchStep::Wait => panic!("the watcher should have reported"),
        WatchStep::Stop => panic!("the watcher should have reported"),
    }
}

fn is_terminal(event: &DownloadPayload) -> bool {
    event.status.terminal()
}

#[test]
fn constants_of_the_interface() {
    assert_eq!(STATUS_CHANNEL, "DOWNLOAD_STATUS");
    assert_eq!(POLL_INTERVAL_MILLIS, 100);
}

#[test]
fn status_names_are_the_words_of_the_interface() {
    assert_eq!(Status::Downloading.name(), "downloading");
    assert_eq!(Status::Success.name(), "success");
    assert_eq!(Status::Error.name(), "error");
    assert_eq!(Status::Cancelled.name(), "cancelled");
}

#[test]
fn only_downloading_is_not_terminal() {
    assert!(!Status::Downloading.terminal());
    assert!(Status::Success.terminal());
    assert!(Status::Error.terminal());
    assert!(Status::Cancelled.terminal());
}

#[test]
fn downloading_event_names_the_job() {
    let event = DownloadPayload::downloading(&id("download_5"));
    assert_eq!(event.status, Status::Downloading);
    assert_eq!(event.message, "Starting download...");
    assert_eq!(event.download_id, Some(id("download_5")));
}

#[test]
fn about_builds_the_event_it_is_given() {
    let event = DownloadPayload::about(Status::Error, id("broken"), &id("download_9"));
    assert_eq!(event.status, Status::Error);
    assert_eq!(event.message, "broken");
    assert_eq!(event.download_id, Some(id("download_9")));
}

#[test]
fn watcher_waits_while_the_worker_runs() {
    let mut registry = live("download_1");
    let step = watch_step(&mut registry, &id("download_1"), Some(Poll::Running));
    assert!(matches!(step, WatchStep::Wait));
    assert!(registry.contains(&id("download_1")));
}

#[test]
fn watcher_waits_where_a_live_job_was_not_looked_at() {
    let mut registry = live("download_1");
    let step = watch_step(&mut registry, &id("download_1"), None);
    assert!(matches!(step, WatchStep::Wait));
    assert!(registry.contains(&id("download_1")));
}

#[test]
fn watcher_reports_success_and_removes_the_job() {
    let mut registry = live("download_1");
    let event = report(watch_step(
        &mut registry,
        &id("download_1"),
        Some(Poll::Exited { success: true, diagnostic: None }),
    ));
    assert_eq!(event.status, Status::Success);
    assert_eq!(event.message, "Download completed successfully!");
    assert_eq!(event.download_id, Some(id("download_1")));
    assert!(!registry.contains(&id("download_1")));
}

#[test]
fn watcher_reports_failure_and_removes_the_job() {
    let mut registry = live("download_1");
    let event = report(watch_step(
        &mut registry,
        &id("download_1"),
        Some(Poll::Exited { success: false, diagnostic: None }),
    ));
    assert_eq!(event.status, Status::Error);
    assert_eq!(event.message, "Download failed");
    assert_eq!(event.download_id, Some(id("download_1")));
    assert!(!registry.contains(&id("download_1")));
}

#[test]
fn watcher_passes_on_what_a_failed_worker_said() {
    let mut registry = live("download_1");
    let event = report(watch_step(
        &mut registry,
        &id("download_1"),
        Some(Poll::Exited { success: false, diagnostic: Some(id("ERROR: video unavailable")) }),
    ));
    assert_eq!(event.status, Status::Error);
    assert_eq!(event.message, "Download failed: ERROR: video unavailable");
    assert_eq!(event.download_id, Some(id("download_1")));
    assert!(!registry.contains(&id("download_1")));
}

#[test]
fn watcher_does_not_repeat_what_a_successful_worker_said() {
    let mut registry = live("download_1");
    let event = report(watch_step(
        &mut registry,
        &id("download_1"),
        Some(Poll::Exited { success: true, diagnostic: Some(id("WARNING: slow")) }),
    ));
    assert_eq!(event.status, Status::Success);
    assert_eq!(event.message, "Download completed successfully!");
}

#[test]
fn watcher_reports_a_fault_as_process_error() {
    let mut registry = live("download_1");
    let event = report(watch_step(&mut registry, &id("download_1"), Some(Poll::Fault)));
    assert_eq!(event.status, Status::Error);
    assert_eq!(event.message, "Process error");
    assert_eq!(event.download_id, Some(id("download_1")));
    assert!(!registry.contains(&id("download_1")));
}

#[test]
fn watcher_of_a_claimed_job_stops_without_an_event() {
    let mut registry = live("other");
    let step = watch_step(&mut registry, &id("download_1"), None);
    assert!(matches!(step, WatchStep::Stop));
    assert!(registry.contains(&id("other")));
}

#[test]
fn the_registry_decides_not_the_look() {
    let mut registry: JobRegistry<u32> = JobRegistry::new();
    let step = watch_step(
        &mut registry,
        &id("download_1"),
        Some(Poll::Exited { success: true, diagnostic: None }),
    );
    assert!(matches!(step, WatchStep::Stop));
}

#[test]
fn watcher_leaves_other_jobs_alone() {
    let mut registry = live("a");
    assert!(registry.register(id("b"), 2).is_ok());
    let _ = report(watch_step(&mut registry, &id("a"), Some(Poll::Exited { success: true, diagnostic: None })));
    assert!(registry.contains(&id("b")));
    assert_eq!(registry.take(&id("b")), Some(2));
}

#[test]
fn cancel_of_an_unknown_job_is_not_found() {
    let mut registry = live("download_1");
    let claimed = claim_for_cancel(&mut registry, &id("download_2"));
    match claimed {
        Err(error) => {
            assert!(matches!(error, CancelError::NotFound));
            assert_eq!(error.message(), "Download not found or already completed");
        }
        Ok(_) => panic!("nothing to claim"),
    }
    assert!(registry.contains(&id("download_1")));
}

#[test]
fn cancel_of_a_finished_job_is_not_found() {
    let mut registry = live("download_1");
    let _ = report(watch_step(
        &mut registry,
        &id("download_1"),
        Some(Poll::Exited { success: true, diagnostic: None }),
    ));
    let claimed = claim_for_cancel(&mut registry, &id("download_1"));
    assert!(matches!(claimed, Err(CancelError::NotFound)));
}

#[test]
fn cancel_of_a_cancelled_job_is_not_found() {
    let mut registry = live("download_1");
    assert!(claim_for_cancel(&mut registry, &id("download_1")).is_ok());
    let again = claim_for_cancel(&mut registry, &id("download_1"));
    assert!(matches!(again, Err(CancelError::NotFound)));
}

#[test]
fn cancel_claims_a_live_job() {
    let mut registry = live("download_1");
    let claimed = claim_for_cancel(&mut registry, &id("download_1"));
    assert!(matches!(claimed, Ok(1)));
    assert!(!registry.contains(&id("download_1")));
}

#[test]
fn cancel_report_after_a_kill_that_worked() {
    let report = cancel_report(&id("download_1"), None);
    assert_eq!(report.event.status, Status::Cancelled);
    assert_eq!(report.event.message, "Download cancelled successfully");
    assert_eq!(report.event.download_id, Some(id("download_1")));
    assert!(report.outcome.is_ok());
}

#[test]
fn cancel_report_after_a_kill_that_failed() {
    let report = cancel_report(&id("download_1"), Some(id("no such process")));
    assert_eq!(report.event.status, Status::Cancelled);
    assert_eq!(report.event.message, "Download was cancelled");
    assert_eq!(report.event.download_id, Some(id("download_1")));
    match report.outcome {
        Err(error) => {
            assert!(matches!(&error, CancelError::KillFailed(cause) if cause == "no such process"));
            assert_eq!(error.message(), "Failed to cancel download: no such process");
        }
        Ok(()) => panic!("the kill failed"),
    }
}

/// Plays the watcher's round on `registry` and keeps what it sends.
fn look(
    registry: &mut JobRegistry<u32>,
    job: &String,
    seen: Option<Poll>,
    events: &mut Vec<DownloadPayload>,
) -> bool {
    match watch_step(registry, job, seen) {
        WatchStep::Wait => true,
        WatchStep::Report(event) => {
            events.push(event);
            false
        }
        WatchStep::Stop => false,
    }
}

/// Plays a cancellation on `registry` and keeps what it sends.
fn cancel(
    registry: &mut JobRegistry<u32>,
    job: &String,
    failure: Option<String>,
    events: &mut Vec<DownloadPayload>,
) -> Result<(), CancelError> {
    claim_for_cancel(registry, job)?;
    let report = cancel_report(job, failure);
    events.push(report.event);
    report.outcome
}

fn terminal(events: &[DownloadPayload]) -> Vec<Status> {
    events.iter().filter(|event| is_terminal(event)).map(|event| event.status).collect()
}

#[test]
fn natural_end_then_cancel_gives_one_terminal_event() {
    let job = id("download_1");
    let mut registry = live("download_1");
    let mut events: Vec<DownloadPayload> = vec![DownloadPayload::downloading(&job)];

    assert!(look(&mut registry, &job, Some(Poll::Running), &mut events));
    assert!(!look(
        &mut registry,
        &job,
        Some(Poll::Exited { success: true, diagnostic: None }),
        &mut events
    ));
    let cancelled = cancel(&mut registry, &job, None, &mut events);
    assert!(matches!(cancelled, Err(CancelError::NotFound)));

    assert_eq!(events.len(), 2);
    assert_eq!(events[0].status, Status::Downloading);
    assert_eq!(terminal(&events), vec![Status::Success]);
}

#[test]
fn failed_end_then_cancel_gives_one_terminal_event() {
    let job = id("download_1");
    let mut registry = live("download_1");
    let mut events: Vec<DownloadPayload> = vec![DownloadPayload::downloading(&job)];

    assert!(!look(
        &mut registry,
        &job,
        Some(Poll::Exited { success: false, diagnostic: None }),
        &mut events
    ));
    let cancelled = cancel(&mut registry, &job, None, &mut events);
    assert!(matches!(cancelled, Err(CancelError::NotFound)));

    assert_eq!(terminal(&events), vec![Status::Error]);
}

#[test]
fn cancel_that_kills_then_watcher_gives_one_terminal_event() {
    let job = id("download_1");
    let mut registry = live("download_1");
    let mut events: Vec<DownloadPayload> = vec![DownloadPayload::downloading(&job)];

    assert!(cancel(&mut registry, &job, None, &mut events).is_ok());
    assert!(!look(&mut registry, &job, None, &mut events));

    assert_eq!(events.len(), 2);
    assert_eq!(terminal(&events), vec![Status::Cancelled]);
    assert_eq!(events[1].message, "Download cancelled successfully");
    assert_eq!(events[1].download_id, Some(job));
}

#[test]
fn watcher_between_claim_and_report_sends_nothing() {
    let job = id("download_1");
    let mut registry = live("download_1");
    let mut events: Vec<DownloadPayload> = vec![DownloadPayload::downloading(&job)];

    assert!(claim_for_cancel(&mut registry, &job).is_ok());
    assert!(!look(&mut registry, &job, None, &mut events));
    assert_eq!(terminal(&events), Vec::<Status>::new());
    let report = cancel_report(&job, None);
    events.push(report.event);

    assert_eq!(terminal(&events), vec![Status::Cancelled]);
}

#[test]
fn cancel_whose_kill_fails_then_watcher_gives_one_terminal_event() {
    let job = id("download_1");
    let mut registry = live("download_1");
    let mut events: Vec<DownloadPayload> = vec![DownloadPayload::downloading(&job)];

    let cancelled = cancel(&mut registry, &job, Some(id("denied")), &mut events);
    match cancelled {
        Err(error) => assert_eq!(error.message(), "Failed to cancel download: denied"),
        Ok(()) => panic!("the kill failed"),
    }
    assert!(!look(&mut registry, &job, None, &mut events));

    assert_eq!(terminal(&events), vec![Status::Cancelled]);
    assert_eq!(events[1].message, "Download was cancelled");
}

#[test]
fn two_cancellations_give_one_terminal_event() {
    let job = id("download_1");
    let mut registry = live("download_1");
    let mut events: Vec<DownloadPayload> = vec![DownloadPayload::downloading(&job)];

    assert!(cancel(&mut registry, &job, None, &mut events).is_ok());
    let second = cancel(&mut registry, &job, None, &mut events);
    assert!(matches!(second, Err(CancelError::NotFound)));
    assert!(!look(&mut registry, &job, None, &mut events));

    assert_eq!(terminal(&events), vec![Status::Cancelled]);
}

#[test]
fn jobs_side_by_side_get_one_terminal_event_each() {
    let first = id("download_1");
    let second = id("download_2");
    let mut registry = live("download_1");
    assert!(registry.register(second.clone(), 2).is_ok());
    let mut events: Vec<DownloadPayload> =
        vec![DownloadPayload::downloading(&first), DownloadPayload::downloading(&second)];

    assert!(look(&mut registry, &first, Some(Poll::Running), &mut events));
    assert!(cancel(&mut registry, &second, None, &mut events).is_ok());
    assert!(!look(
        &mut registry,
        &first,
        Some(Poll::Exited { success: true, diagnostic: None }),
        &mut events
    ));
    assert!(!look(&mut registry, &second, None, &mut events));

    let of = |job: &String| -> Vec<Status> {
        events
            .iter()
            .filter(|event| event.download_id.as_ref() == Some(job) && is_terminal(event))
            .map(|event| event.status)
            .collect()
    };
    assert_eq!(of(&first), vec![Status::Success]);
    assert_eq!(of(&second), vec![Status::Cancelled]);
}

#[test]
fn launch_has_not_failed_while_a_command_waits() {
    let plan = FallbackPlan::new(Action::Download, vec![id("python")]);
    assert!(launch_failure(&plan, &id("download_1")).is_none());
}

#[test]
fn launch_has_not_failed_after_a_command_started() {
    let mut plan = FallbackPlan::new(Action::Download, vec![id("python")]);
    plan.record_started();
    assert!(launch_failure(&plan, &id("download_1")).is_none());
}

#[test]
fn launch_failure_carries_the_last_cause_in_event_and_error() {
    let mut plan = FallbackPlan::new(Action::Download, vec![id("python"), id("py")]);
    plan.record_failure("not found");
    plan.record_failure("access denied");
    let failed = launch_failure(&plan, &id("download_1"));
    let expected = "All Python commands failed. Last error: Failed to execute py command: access denied. Please ensure Python is installed and yt-dlp is available.";
    match failed {
        Some(end) => {
            assert_eq!(end.message, expected);
            assert_eq!(end.event.status, Status::Error);
            assert_eq!(end.event.message, expected);
            assert_eq!(end.event.download_id, Some(id("download_1")));
        }
        None => panic!("every command failed"),
    }
}

#[test]
fn terminal_states_are_the_last_three() {
    assert!(!JobState::Launching.terminal());
    assert!(!JobState::Running.terminal());
    assert!(JobState::Succeeded.terminal());
    assert!(JobState::Failed.terminal());
    assert!(JobState::Cancelled.terminal());
}

#[test]
fn a_terminal_status_leads_to_its_state() {
    assert_eq!(next_state(Status::Downloading), JobState::Running);
    assert_eq!(next_state(Status::Success), JobState::Succeeded);
    assert_eq!(next_state(Status::Error), JobState::Failed);
    assert_eq!(next_state(Status::Cancelled), JobState::Cancelled);
}

#[test]
fn enroll_registers_under_the_identifier_of_the_millisecond() {
    let mut registry: JobRegistry<u32> = JobRegistry::new();
    let job = enroll(&mut registry, 1700000000000, 11);
    assert_eq!(job, "download_1700000000000");
    assert!(registry.contains(&job));
    assert_eq!(registry.len(), 1);
    assert_eq!(registry.take(&job), Some(11));
}

#[test]
fn enroll_twice_in_one_millisecond_keeps_both_jobs() {
    let mut registry: JobRegistry<u32> = JobRegistry::new();
    let first = enroll(&mut registry, 1700000000000, 1);
    let second = enroll(&mut registry, 1700000000000, 2);
    assert_ne!(first, second);
    assert_eq!(second, "download_1700000000001");
    assert_eq!(registry.len(), 2);
    assert_eq!(registry.take(&first), Some(1));
    assert_eq!(registry.take(&second), Some(2));
}

#[test]
fn enrolled_job_runs_its_life_with_one_terminal_event() {
    let mut registry: JobRegistry<u32> = JobRegistry::new();
    let job = enroll(&mut registry, 42, 7);
    let mut events: Vec<DownloadPayload> = vec![DownloadPayload::downloading(&job)];
    assert!(look(&mut registry, &job, Some(Poll::Running), &mut events));
    assert!(cancel(&mut registry, &job, None, &mut events).is_ok());
    assert!(!look(&mut registry, &job, None, &mut events));
    assert_eq!(terminal(&events), vec![Status::Cancelled]);
    assert_eq!(registry.len(), 0);
}

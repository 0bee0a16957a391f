use update_pipeline::config::UpdateConfig;
use update_pipeline::registry::UpdateRegistry;
use update_pipeline::stage::{ErrorKind, Stage};
use update_pipeline::task::{Action, Event, Pos, RemoveOutcome, StepOutcome, UpdateTask};

fn config(
    services: &[&str],
    paths: &[&str],
    owner: Option<(&str, &str)>,
    target_paths: &[&str],
) -> UpdateConfig {
    UpdateConfig {
        services_to_stop: services.iter().map(|s| s.to_string()).collect(),
        paths_to_remove: paths.iter().map(|s| s.to_string()).collect(),
        target_user: owner.map(|(u, _)| u.to_string()),
        target_group: owner.map(|(_, g)| g.to_string()),
        target_paths: target_paths.iter().map(|s| s.to_string()).collect(),
    }
}

#[test]
fn fresh_task_is_idle() {
    let t = UpdateTask::new(config(&["svc-a"], &["/tmp/old"], None, &[]));
    assert_eq!(t.pos, Pos::NotStarted);
    assert_eq!(t.stage, Stage::Init);
    assert!(!t.is_running());
    assert_eq!(t.error, None);
    assert_eq!(t.next_action(), Action::Idle);
}

#[test]
fn start_leaves_first_stop_pending() {
    let mut t = UpdateTask::new(config(&["svc-a", "svc-b"], &[], None, &[]));
    assert!(t.start().is_ok());
    assert!(t.is_running());
    assert_eq!(t.stage, Stage::StoppingServices);
    assert_eq!(t.next_action(), Action::StopService(0));
}

#[test]
fn start_on_running_task_is_rejected() {
    let mut t = UpdateTask::new(config(&["svc-a"], &[], None, &[]));
    assert!(t.start().is_ok());
    assert_eq!(t.start(), Err(ErrorKind::AlreadyRunning));
    assert_eq!(t.next_action(), Action::StopService(0));
}

#[test]
fn full_pipeline_reaches_finished() {
    let mut t = UpdateTask::new(config(
        &["svc-a", "svc-b"],
        &["/tmp/old"],
        Some(("erigon", "erigon")),
        &["/data"],
    ));
    assert!(t.start().is_ok());
    assert_eq!(t.next_action(), Action::StopService(0));
    t.apply(Event::ServiceStopped(StepOutcome::Success));
    assert_eq!(t.next_action(), Action::StopService(1));
    t.apply(Event::ServiceStopped(StepOutcome::Success));
    assert_eq!(t.stage, Stage::RemovingOldFiles);
    assert_eq!(t.next_action(), Action::RemovePath(0));
    t.apply(Event::PathRemoved(RemoveOutcome::Removed));
    assert_eq!(t.next_action(), Action::SettleDelay);
    t.apply(Event::Settled);
    assert_eq!(t.stage, Stage::Downloading);
    assert_eq!(t.next_action(), Action::StartDownload);
    t.apply(Event::DownloadStarted(StepOutcome::Success));
    assert_eq!(t.next_action(), Action::PollDownload);
    t.apply(Event::DownloadPolled(false));
    assert_eq!(t.next_action(), Action::PollDownload);
    t.apply(Event::DownloadPolled(true));
    assert_eq!(t.next_action(), Action::CheckDownloadError);
    t.apply(Event::DownloadChecked(None));
    assert_eq!(t.stage, Stage::ChangingOwnership);
    assert_eq!(t.next_action(), Action::ChangeOwner(0));
    t.apply(Event::OwnershipChanged(StepOutcome::Success));
    assert_eq!(t.stage, Stage::StartingService);
    assert_eq!(t.next_action(), Action::RestartService(0));
    t.apply(Event::ServiceRestarted(StepOutcome::Success));
    assert_eq!(t.next_action(), Action::RestartService(1));
    t.apply(Event::ServiceRestarted(StepOutcome::Success));
    assert_eq!(t.stage, Stage::Finished);
    assert!(!t.is_running());
    assert_eq!(t.error, None);
    assert_eq!(t.failure_kind(), None);
    assert_eq!(t.next_action(), Action::Done);
}

#[test]
fn empty_phases_are_skipped() {
    let mut t = UpdateTask::new(config(&[], &[], None, &[]));
    assert!(t.start().is_ok());
    assert_eq!(t.stage, Stage::RemovingOldFiles);
    assert_eq!(t.next_action(), Action::SettleDelay);
    t.apply(Event::Settled);
    t.apply(Event::DownloadStarted(StepOutcome::Success));
    t.apply(Event::DownloadPolled(true));
    t.apply(Event::DownloadChecked(None));
    assert_eq!(t.stage, Stage::Finished);
    assert!(!t.is_running());
}

#[test]
fn ownership_phase_skipped_without_owner() {
    let mut t = UpdateTask::new(config(&["svc-a"], &[], None, &["/data"]));
    assert!(t.start().is_ok());
    t.apply(Event::ServiceStopped(StepOutcome::Success));
    t.apply(Event::Settled);
    t.apply(Event::DownloadStarted(StepOutcome::Success));
    t.apply(Event::DownloadPolled(true));
    t.apply(Event::DownloadChecked(None));
    assert_eq!(t.stage, Stage::StartingService);
    assert_eq!(t.next_action(), Action::RestartService(0));
}

#[test]
fn missing_path_is_a_no_op() {
    let mut t = UpdateTask::new(config(&[], &["/tmp/a", "/tmp/b"], None, &[]));
    assert!(t.start().is_ok());
    assert_eq!(t.next_action(), Action::RemovePath(0));
    t.apply(Event::PathRemoved(RemoveOutcome::Missing));
    assert_eq!(t.error, None);
    assert!(t.is_running());
    assert_eq!(t.next_action(), Action::RemovePath(1));
    t.apply(Event::PathRemoved(RemoveOutcome::Missing));
    assert_eq!(t.error, None);
    assert_eq!(t.next_action(), Action::SettleDelay);
}

#[test]
fn missing_path_still_reaches_downloading() {
    let mut t = UpdateTask::new(config(&["svc-a"], &["/tmp/old"], None, &[]));
    assert!(t.start().is_ok());
    t.apply(Event::ServiceStopped(StepOutcome::Success));
    t.apply(Event::PathRemoved(RemoveOutcome::Missing));
    t.apply(Event::Settled);
    assert_eq!(t.stage, Stage::Downloading);
    assert_eq!(t.next_action(), Action::StartDownload);
    assert_eq!(t.error, None);
}

#[test]
fn unreachable_stop_target_halts_in_stopping() {
    let mut t = UpdateTask::new(config(&["no-such-unit"], &["/tmp/old"], None, &[]));
    assert!(t.start().is_ok());
    t.apply(Event::ServiceStopped(StepOutcome::Failure(
        "unit not found".to_string(),
    )));
    assert_eq!(t.stage, Stage::StoppingServices);
    assert_eq!(
        t.error,
        Some("Failed to stop process no-such-unit: unit not found".to_string())
    );
    assert!(!t.is_running());
    assert_eq!(t.failure_kind(), Some(ErrorKind::ServiceControlFailure));
    assert_eq!(t.next_action(), Action::Done);
    // later phases never execute: every further event leaves the task as is
    t.apply(Event::PathRemoved(RemoveOutcome::Removed));
    t.apply(Event::DownloadStarted(StepOutcome::Success));
    assert_eq!(t.stage, Stage::StoppingServices);
    assert!(!t.is_running());
}

#[test]
fn download_error_after_finish_halts() {
    let mut t = UpdateTask::new(config(
        &["svc-a"],
        &[],
        Some(("erigon", "erigon")),
        &["/data"],
    ));
    assert!(t.start().is_ok());
    t.apply(Event::ServiceStopped(StepOutcome::Success));
    t.apply(Event::Settled);
    t.apply(Event::DownloadStarted(StepOutcome::Success));
    t.apply(Event::DownloadPolled(true));
    t.apply(Event::DownloadChecked(Some("checksum mismatch".to_string())));
    assert_eq!(t.stage, Stage::Downloading);
    assert_eq!(
        t.error,
        Some("Download failed with error: checksum mismatch".to_string())
    );
    assert!(!t.is_running());
    assert_eq!(t.failure_kind(), Some(ErrorKind::DownloadFailure));
    // ownership change and restart never execute
    t.apply(Event::OwnershipChanged(StepOutcome::Success));
    t.apply(Event::ServiceRestarted(StepOutcome::Success));
    assert_eq!(t.stage, Stage::Downloading);
    assert_eq!(t.next_action(), Action::Done);
}

#[test]
fn removal_failure_records_cleanup_error() {
    let mut t = UpdateTask::new(config(&[], &["/tmp/old"], None, &[]));
    assert!(t.start().is_ok());
    t.apply(Event::PathRemoved(RemoveOutcome::FailedDir(
        "permission denied".to_string(),
    )));
    assert_eq!(t.stage, Stage::RemovingOldFiles);
    assert_eq!(
        t.error,
        Some("Error removing directory: permission denied".to_string())
    );
    assert_eq!(t.failure_kind(), Some(ErrorKind::CleanupFailure));
}

#[test]
fn file_removal_failure_message() {
    let mut t = UpdateTask::new(config(&[], &["/tmp/old.txt"], None, &[]));
    assert!(t.start().is_ok());
    t.apply(Event::PathRemoved(RemoveOutcome::FailedFile("busy".to_string())));
    assert_eq!(t.error, Some("Error removing file: busy".to_string()));
    assert_eq!(t.failure_kind(), Some(ErrorKind::CleanupFailure));
}

#[test]
fn download_start_failure_halts() {
    let mut t = UpdateTask::new(config(&[], &[], None, &[]));
    assert!(t.start().is_ok());
    t.apply(Event::Settled);
    t.apply(Event::DownloadStarted(StepOutcome::Failure(
        "bad url".to_string(),
    )));
    assert_eq!(t.stage, Stage::Downloading);
    assert_eq!(t.error, Some("Error started downloading: bad url".to_string()));
    assert_eq!(t.failure_kind(), Some(ErrorKind::DownloadFailure));
}

#[test]
fn ownership_failure_records_error() {
    let mut t = UpdateTask::new(config(&[], &[], Some(("u", "g")), &["/data"]));
    assert!(t.start().is_ok());
    t.apply(Event::Settled);
    t.apply(Event::DownloadStarted(StepOutcome::Success));
    t.apply(Event::DownloadPolled(true));
    t.apply(Event::DownloadChecked(None));
    assert_eq!(t.stage, Stage::ChangingOwnership);
    t.apply(Event::OwnershipChanged(StepOutcome::Failure(
        "chown failed".to_string(),
    )));
    assert_eq!(t.error, Some("Error changing owner: chown failed".to_string()));
    assert_eq!(t.failure_kind(), Some(ErrorKind::OwnershipChangeFailure));
}

#[test]
fn restart_failure_records_error() {
    let mut t = UpdateTask::new(config(&["svc-a"], &[], None, &[]));
    assert!(t.start().is_ok());
    t.apply(Event::ServiceStopped(StepOutcome::Success));
    t.apply(Event::Settled);
    t.apply(Event::DownloadStarted(StepOutcome::Success));
    t.apply(Event::DownloadPolled(true));
    t.apply(Event::DownloadChecked(None));
    assert_eq!(t.stage, Stage::StartingService);
    t.apply(Event::ServiceRestarted(StepOutcome::Failure(
        "won't start".to_string(),
    )));
    assert_eq!(t.error, Some("Error starting service: won't start".to_string()));
    assert_eq!(t.stage, Stage::StartingService);
    assert_eq!(t.failure_kind(), Some(ErrorKind::ServiceControlFailure));
}

#[test]
fn mismatched_event_changes_nothing() {
    let mut t = UpdateTask::new(config(&["svc-a"], &[], None, &[]));
    assert!(t.start().is_ok());
    t.apply(Event::Settled);
    t.apply(Event::DownloadPolled(true));
    t.apply(Event::OwnershipChanged(StepOutcome::Success));
    assert_eq!(t.stage, Stage::StoppingServices);
    assert_eq!(t.next_action(), Action::StopService(0));
    assert!(t.is_running());
    assert_eq!(t.error, None);
}

#[test]
fn restart_after_failed_run_clears_error() {
    let mut t = UpdateTask::new(config(&["svc-a"], &[], None, &[]));
    assert!(t.start().is_ok());
    t.apply(Event::ServiceStopped(StepOutcome::Failure("boom".to_string())));
    assert!(t.error.is_some());
    assert!(!t.is_running());
    assert!(t.start().is_ok());
    assert_eq!(t.error, None);
    assert!(t.is_running());
    assert_eq!(t.next_action(), Action::StopService(0));
}

#[test]
fn second_start_request_is_rejected_without_side_effects() {
    let mut reg = UpdateRegistry::new();
    let first = reg.request_start(config(&["svc-a"], &["/tmp/old"], None, &[]));
    assert_eq!(first, Ok(()));
    let second = reg.request_start(config(&["svc-b"], &[], None, &[]));
    assert_eq!(second, Err(ErrorKind::AlreadyRunning));
    // no new task was constructed: the current one still stops svc-a
    let t = reg.current.as_ref().unwrap();
    assert!(t.is_running());
    assert_eq!(t.services_to_stop, vec!["svc-a".to_string()]);
    assert_eq!(t.next_action(), Action::StopService(0));
}

#[test]
fn start_accepted_again_after_run_ends() {
    let mut reg = UpdateRegistry::new();
    assert_eq!(reg.request_start(config(&["svc-a"], &[], None, &[])), Ok(()));
    reg.current
        .as_mut()
        .unwrap()
        .apply(Event::ServiceStopped(StepOutcome::Failure("down".to_string())));
    assert!(!reg.current.as_ref().unwrap().is_running());
    // a finished (here: failed) run can be superseded
    assert_eq!(reg.request_start(config(&["svc-b"], &[], None, &[])), Ok(()));
    let t = reg.current.as_ref().unwrap();
    assert_eq!(t.services_to_stop, vec!["svc-b".to_string()]);
    assert_eq!(t.error, None);
    assert!(t.is_running());
}

#[test]
fn pause_request_is_inert() {
    let mut reg = UpdateRegistry::new();
    assert_eq!(reg.request_start(config(&["svc-a"], &[], None, &[])), Ok(()));
    reg.set_started();
    assert!(reg.started);
    let t = reg.current.as_ref().unwrap();
    assert!(t.is_running());
    assert_eq!(t.stage, Stage::StoppingServices);
    assert_eq!(t.next_action(), Action::StopService(0));
}

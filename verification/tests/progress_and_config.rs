use update_pipeline::config::{split_list, UpdateConfig};
use update_pipeline::registry::UpdateRegistry;
use update_pipeline::stage::Stage;
use update_pipeline::task::{Event, StepOutcome, UpdateTask};

fn simple_config(service: &str) -> UpdateConfig {
    UpdateConfig {
        services_to_stop: vec![service.to_string()],
        paths_to_remove: vec![],
        target_user: None,
        target_group: None,
        target_paths: vec![],
    }
}

#[test]
fn split_on_semicolons() {
    let parts = split_list("a;b;c");
    assert_eq!(
        parts,
        vec!["a".to_string(), "b".to_string(), "c".to_string()]
    );
}

#[test]
fn split_without_separator_is_one_segment() {
    assert_eq!(split_list("alpha"), vec!["alpha".to_string()]);
}

#[test]
fn split_of_empty_string_is_one_empty_segment() {
    assert_eq!(split_list(""), vec!["".to_string()]);
}

#[test]
fn split_keeps_trailing_empty_segment() {
    assert_eq!(split_list("a;"), vec!["a".to_string(), "".to_string()]);
}

#[test]
fn split_of_separators_only() {
    assert_eq!(
        split_list(";;"),
        vec!["".to_string(), "".to_string(), "".to_string()]
    );
}

#[test]
fn split_of_paths() {
    assert_eq!(
        split_list("/tmp/a;/var/lib/b"),
        vec!["/tmp/a".to_string(), "/var/lib/b".to_string()]
    );
}

#[test]
fn stage_names() {
    assert_eq!(Stage::Init.name(), "init");
    assert_eq!(Stage::StoppingServices.name(), "stopping_services");
    assert_eq!(Stage::RemovingOldFiles.name(), "removing_old_files");
    assert_eq!(Stage::Downloading.name(), "downloading");
    assert_eq!(Stage::ChangingOwnership.name(), "changing_ownership");
    assert_eq!(Stage::StartingService.name(), "starting_service");
    assert_eq!(Stage::Finished.name(), "finished");
}

#[test]
fn no_task_sentinel_before_any_start() {
    let reg = UpdateRegistry::new();
    let p = reg.current_progress(Some("{}".to_string()));
    assert_eq!(p.stage, None);
    assert_eq!(p.error_message, None);
    assert_eq!(p.download_progress, None);
    assert_eq!(p.stage_name(), "no_task");
}

#[test]
fn snapshot_reflects_stage_error_and_download_progress() {
    let mut t = UpdateTask::new(simple_config("svc-a"));
    assert!(t.start().is_ok());
    let p = t.get_progress(Some("{\"downloaded\":1}".to_string()));
    assert_eq!(p.stage, Some(Stage::StoppingServices));
    assert_eq!(p.stage_name(), "stopping_services");
    assert_eq!(p.error_message, None);
    assert_eq!(p.download_progress, Some("{\"downloaded\":1}".to_string()));

    t.apply(Event::ServiceStopped(StepOutcome::Failure("down".to_string())));
    let p = t.get_progress(None);
    assert_eq!(p.stage, Some(Stage::StoppingServices));
    assert_eq!(
        p.error_message,
        Some("Failed to stop process svc-a: down".to_string())
    );
    assert_eq!(p.download_progress, None);
}

#[test]
fn registry_snapshot_of_current_task() {
    let mut reg = UpdateRegistry::new();
    assert_eq!(reg.request_start(simple_config("svc-a")), Ok(()));
    let p = reg.current_progress(Some("sub".to_string()));
    assert_eq!(p.stage, Some(Stage::StoppingServices));
    assert_eq!(p.error_message, None);
    assert_eq!(p.download_progress, Some("sub".to_string()));
}

use crate::config::UpdateConfig;
use crate::registry::UpdateRegistry;
use crate::stage::{stage_index, Stage};
use crate::task::{
    action_of, failed, initial_view, pos_active, pos_from_removing, started, step, steps_left,
    success_event_of, Action, Event, Pos, RemoveOutcome, StepOutcome, TaskView,
};
use vstd::prelude::*;

verus! {

/// Law: every transition keeps a run well formed, so the pipeline can never
/// step out of its lists, lose track of its stage, or run without being
/// marked running.
pub proof fn lemma_step_preserves_wf(v: TaskView, e: Event)
    requires
        v.wf(),
    ensures
        step(v, e).wf(),
{
}

/// Law: within one run the stage only ever moves forward through the fixed
/// total order, whatever outcome the surrounding program reports.
pub proof fn lemma_stage_monotonic(v: TaskView, e: Event)
    requires
        v.wf(),
    ensures
        stage_index(step(v, e).stage) >= stage_index(v.stage),
{
}

/// Law: an error is recorded at most once and is absorbing. Once a run holds
/// an error it is no longer running, no event moves it again, and the only
/// pending action is `Done`.
pub proof fn lemma_error_absorbing(v: TaskView, e: Event)
    requires
        v.wf(),
        v.error is Some,
    ensures
        step(v, e) == v,
        !v.running,
        action_of(v) == Action::Done,
{
}

/// Law: if a service-stop call fails, the run aborts at once: the stage
/// stays at the stopping step with a non-empty error, the run stops, and no
/// event ever moves it again — the removal, download, ownership and restart
/// steps never execute.
pub proof fn lemma_stop_failure_halts(v: TaskView, i: usize, m: String, e: Event)
    requires
        v.wf(),
        v.pos == Pos::Stopping(i),
    ensures
        step(v, Event::ServiceStopped(StepOutcome::Failure(m))).stage == Stage::StoppingServices,
        step(v, Event::ServiceStopped(StepOutcome::Failure(m))).error is Some,
        !step(v, Event::ServiceStopped(StepOutcome::Failure(m))).running,
        step(step(v, Event::ServiceStopped(StepOutcome::Failure(m))), e) == step(
            v,
            Event::ServiceStopped(StepOutcome::Failure(m)),
        ),
{
}

/// Law: if the download capability reports an internal error after
/// finishing, the run records that error and aborts in the downloading
/// stage: the ownership change and the service restarts never execute.
pub proof fn lemma_download_error_halts(v: TaskView, m: String, e: Event)
    requires
        v.wf(),
        v.pos == Pos::CheckingDownload,
    ensures
        step(v, Event::DownloadChecked(Some(m))) == failed(
            v,
            "Download failed with error: "@ + m@,
        ),
        step(v, Event::DownloadChecked(Some(m))).stage == Stage::Downloading,
        !step(v, Event::DownloadChecked(Some(m))).running,
        step(step(v, Event::DownloadChecked(Some(m))), e) == step(v, Event::DownloadChecked(Some(m))),
{
}

/// Law: a configured path that does not exist is a no-op for the removal
/// step — the run keeps no error, stays running, and proceeds to the next
/// pending step of the pipeline.
pub proof fn lemma_missing_path_is_noop(v: TaskView, i: usize)
    requires
        v.wf(),
        v.pos == Pos::Removing(i),
    ensures
        step(v, Event::PathRemoved(RemoveOutcome::Missing)).error is None,
        step(v, Event::PathRemoved(RemoveOutcome::Missing)).running,
        step(v, Event::PathRemoved(RemoveOutcome::Missing)).pos == pos_from_removing(
            v,
            (i + 1) as usize,
        ),
        stage_index(step(v, Event::PathRemoved(RemoveOutcome::Missing)).stage) >= stage_index(
            v.stage,
        ),
{
}

/// Law (progress): while a run is in flight, a successful outcome of the
/// pending step keeps the run free of errors and strictly decreases the
/// bounded, non-negative count of outside steps left. A run can therefore
/// only leave its in-flight positions for the complete one — so a run whose
/// steps all succeed ends, in the `finished` stage, after at most
/// `steps_left` more steps.
pub proof fn lemma_success_makes_progress(v: TaskView)
    requires
        v.wf(),
        pos_active(v.pos),
    ensures
        steps_left(v) > 0,
        steps_left(step(v, success_event_of(v))) < steps_left(v),
        steps_left(step(v, success_event_of(v))) >= 0,
        step(v, success_event_of(v)).error is None,
        step(v, success_event_of(v)).wf(),
        !pos_active(step(v, success_event_of(v)).pos) ==> step(v, success_event_of(v)).pos
            == Pos::Complete && step(v, success_event_of(v)).stage == Stage::Finished && !step(
            v,
            success_event_of(v),
        ).running,
{
}

/// Law (single flight): an accepted start request stores a running task, and
/// a registry whose current task runs accepts no further start request — so
/// of two start requests in quick succession exactly one launches a
/// pipeline, and the other is rejected with `AlreadyRunning` and no side
/// effect.
pub proof fn lemma_single_flight(cfg: UpdateConfig, r: UpdateRegistry)
    requires
        r.current matches Some(t) && t@ == started(initial_view(cfg)),
    ensures
        !r.accepts_start(),
{
}

} // verus!

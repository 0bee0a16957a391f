use crate::config::UpdateConfig;
use crate::progress::ProgressSnapshot;
use crate::stage::{stage_index, ErrorKind, Stage};
use vstd::prelude::*;

verus! {

/// The pipeline's exact position: which outside step is pending, down to the
/// index in the list that the current phase walks.
///
/// `Aborted` is the absorbing failure position: a task that reached it keeps
/// the stage it failed in and never moves again.
#[derive(Clone, Copy, PartialEq, Eq, Structural, Debug)]
pub enum Pos {
    NotStarted,
    Stopping(usize),
    Removing(usize),
    Settling,
    StartingDownload,
    PollingDownload,
    CheckingDownload,
    Reowning(usize),
    Restarting(usize),
    Complete,
    Aborted,
}

/// Outcome of one synchronous outside step, as the surrounding program saw
/// it: success, or a human-readable failure message.
#[derive(Debug)]
pub enum StepOutcome {
    Success,
    Failure(String),
}

/// Outcome of removing one configured path. A path that did not exist is a
/// `Missing` no-op, not a failure.
#[derive(Debug)]
pub enum RemoveOutcome {
    Removed,
    Missing,
    FailedDir(String),
    FailedFile(String),
}

/// What the surrounding program reports back to the task after performing
/// the pending action.
#[derive(Debug)]
pub enum Event {
    ServiceStopped(StepOutcome),
    PathRemoved(RemoveOutcome),
    Settled,
    DownloadStarted(StepOutcome),
    DownloadPolled(bool),
    DownloadChecked(Option<String>),
    OwnershipChanged(StepOutcome),
    ServiceRestarted(StepOutcome),
}

/// The outside step the surrounding program must perform next. Indices point
/// into the task's configured lists.
#[derive(Clone, Copy, PartialEq, Eq, Structural, Debug)]
pub enum Action {
    Idle,
    StopService(usize),
    RemovePath(usize),
    SettleDelay,
    StartDownload,
    PollDownload,
    CheckDownloadError,
    ChangeOwner(usize),
    RestartService(usize),
    Done,
}

/// Mathematical model of one maintenance run: the pipeline position, the
/// stage and error it reports, and the configuration it was built from.
#[verifier::ext_equal]
pub ghost struct TaskView {
    pub pos: Pos,
    pub stage: Stage,
    pub running: bool,
    pub error: Option<Seq<char>>,
    pub services: Seq<Seq<char>>,
    pub paths: Seq<Seq<char>>,
    pub user: Option<Seq<char>>,
    pub group: Option<Seq<char>>,
    pub target_paths: Seq<Seq<char>>,
}

/// A position at which the background run is in flight.
pub open spec fn pos_active(p: Pos) -> bool {
    !(p is NotStarted || p is Complete || p is Aborted)
}

/// The stage a task at position `p` reports. Not meaningful for `Aborted`:
/// an aborted task keeps the stage it failed in.
pub open spec fn stage_of_pos(p: Pos) -> Stage {
    match p {
        Pos::NotStarted => Stage::Init,
        Pos::Stopping(_) => Stage::StoppingServices,
        Pos::Removing(_) => Stage::RemovingOldFiles,
        Pos::Settling => Stage::RemovingOldFiles,
        Pos::StartingDownload => Stage::Downloading,
        Pos::PollingDownload => Stage::Downloading,
        Pos::CheckingDownload => Stage::Downloading,
        Pos::Reowning(_) => Stage::ChangingOwnership,
        Pos::Restarting(_) => Stage::StartingService,
        Pos::Complete => Stage::Finished,
        Pos::Aborted => Stage::Finished,
    }
}

impl TaskView {
    /// Ownership fixup is configured only when both a user and a group are.
    pub open spec fn has_owner(self) -> bool {
        self.user is Some && self.group is Some
    }

    /// Well-formedness: indices stay inside their lists, the running flag
    /// follows the position, an error is recorded exactly on abort, and the
    /// reported stage follows the position until an abort freezes it at one
    /// of the five failable stages.
    pub open spec fn wf(self) -> bool {
        &&& match self.pos {
            Pos::Stopping(i) => i < self.services.len(),
            Pos::Removing(i) => i < self.paths.len(),
            Pos::Reowning(i) => self.has_owner() && i < self.target_paths.len(),
            Pos::Restarting(i) => i < self.services.len(),
            _ => true,
        }
        &&& self.services.len() <= usize::MAX
        &&& self.paths.len() <= usize::MAX
        &&& self.target_paths.len() <= usize::MAX
        &&& self.running == pos_active(self.pos)
        &&& (self.error is Some) <==> (self.pos is Aborted)
        &&& !(self.pos is Aborted) ==> self.stage == stage_of_pos(self.pos)
        &&& self.pos is Aborted ==> 1 <= stage_index(self.stage) <= 5
    }
}

/// The first position at or after service index `i` of the stopping phase
/// that still has an outside step.
pub open spec fn pos_from_stopping(v: TaskView, i: usize) -> Pos {
    if i < v.services.len() {
        Pos::Stopping(i)
    } else {
        pos_from_removing(v, 0)
    }
}

/// The first position at or after path index `i` of the removal phase that
/// still has an outside step. The settle delay always follows the removals.
pub open spec fn pos_from_removing(v: TaskView, i: usize) -> Pos {
    if i < v.paths.len() {
        Pos::Removing(i)
    } else {
        Pos::Settling
    }
}

/// The first position at or after path index `i` of the ownership phase that
/// still has an outside step; the whole phase is skipped when no owner is
/// configured.
pub open spec fn pos_from_reowning(v: TaskView, i: usize) -> Pos {
    if v.has_owner() && i < v.target_paths.len() {
        Pos::Reowning(i)
    } else {
        pos_from_restarting(v, 0)
    }
}

/// The first position at or after service index `i` of the restart phase
/// that still has an outside step.
pub open spec fn pos_from_restarting(v: TaskView, i: usize) -> Pos {
    if i < v.services.len() {
        Pos::Restarting(i)
    } else {
        Pos::Complete
    }
}

/// `v` moved to position `p`, with the reported stage and the running flag
/// following the new position.
pub open spec fn advanced(v: TaskView, p: Pos) -> TaskView {
    TaskView { pos: p, stage: stage_of_pos(p), running: pos_active(p), ..v }
}

/// `v` aborted with message `msg`: the stage it was in is kept, the error is
/// recorded, and the run is over.
pub open spec fn failed(v: TaskView, msg: Seq<char>) -> TaskView {
    TaskView { pos: Pos::Aborted, running: false, error: Some(msg), ..v }
}

/// The transition relation of the pipeline: the state after the surrounding
/// program reports outcome `e` to a task in state `v`. An event that does
/// not answer the pending action, or that arrives once the run is over,
/// changes nothing.
pub open spec fn step(v: TaskView, e: Event) -> TaskView {
    match v.pos {
        Pos::Stopping(i) => match e {
            Event::ServiceStopped(StepOutcome::Success) => advanced(
                v,
                pos_from_stopping(v, (i + 1) as usize),
            ),
            Event::ServiceStopped(StepOutcome::Failure(m)) => failed(
                v,
                "Failed to stop process "@ + v.services[i as int] + ": "@ + m@,
            ),
            _ => v,
        },
        Pos::Removing(i) => match e {
            Event::PathRemoved(RemoveOutcome::Removed) => advanced(
                v,
                pos_from_removing(v, (i + 1) as usize),
            ),
            Event::PathRemoved(RemoveOutcome::Missing) => advanced(
                v,
                pos_from_removing(v, (i + 1) as usize),
            ),
            Event::PathRemoved(RemoveOutcome::FailedDir(m)) => failed(
                v,
                "Error removing directory: "@ + m@,
            ),
            Event::PathRemoved(RemoveOutcome::FailedFile(m)) => failed(
                v,
                "Error removing file: "@ + m@,
            ),
            _ => v,
        },
        Pos::Settling => match e {
            Event::Settled => advanced(v, Pos::StartingDownload),
            _ => v,
        },
        Pos::StartingDownload => match e {
            Event::DownloadStarted(StepOutcome::Success) => advanced(v, Pos::PollingDownload),
            Event::DownloadStarted(StepOutcome::Failure(m)) => failed(
                v,
                "Error started downloading: "@ + m@,
            ),
            _ => v,
        },
        Pos::PollingDownload => match e {
            Event::DownloadPolled(finished) => if finished {
                advanced(v, Pos::CheckingDownload)
            } else {
                v
            },
            _ => v,
        },
        Pos::CheckingDownload => match e {
            Event::DownloadChecked(None) => advanced(v, pos_from_reowning(v, 0)),
            Event::DownloadChecked(Some(m)) => failed(v, "Download failed with error: "@ + m@),
            _ => v,
        },
        Pos::Reowning(i) => match e {
            Event::OwnershipChanged(StepOutcome::Success) => advanced(
                v,
                pos_from_reowning(v, (i + 1) as usize),
            ),
            Event::OwnershipChanged(StepOutcome::Failure(m)) => failed(
                v,
                "Error changing owner: "@ + m@,
            ),
            _ => v,
        },
        Pos::Restarting(i) => match e {
            Event::ServiceRestarted(StepOutcome::Success) => advanced(
                v,
                pos_from_restarting(v, (i + 1) as usize),
            ),
            Event::ServiceRestarted(StepOutcome::Failure(m)) => failed(
                v,
                "Error starting service: "@ + m@,
            ),
            _ => v,
        },
        Pos::NotStarted => v,
        Pos::Complete => v,
        Pos::Aborted => v,
    }
}

/// The outside step pending at state `v`.
pub open spec fn action_of(v: TaskView) -> Action {
    match v.pos {
        Pos::NotStarted => Action::Idle,
        Pos::Stopping(i) => Action::StopService(i),
        Pos::Removing(i) => Action::RemovePath(i),
        Pos::Settling => Action::SettleDelay,
        Pos::StartingDownload => Action::StartDownload,
        Pos::PollingDownload => Action::PollDownload,
        Pos::CheckingDownload => Action::CheckDownloadError,
        Pos::Reowning(i) => Action::ChangeOwner(i),
        Pos::Restarting(i) => Action::RestartService(i),
        Pos::Complete => Action::Done,
        Pos::Aborted => Action::Done,
    }
}

/// The successful outcome of the step pending at `v`. Meaningful only while
/// the run is in flight.
pub open spec fn success_event_of(v: TaskView) -> Event {
    match v.pos {
        Pos::Stopping(_) => Event::ServiceStopped(StepOutcome::Success),
        Pos::Removing(_) => Event::PathRemoved(RemoveOutcome::Removed),
        Pos::Settling => Event::Settled,
        Pos::StartingDownload => Event::DownloadStarted(StepOutcome::Success),
        Pos::PollingDownload => Event::DownloadPolled(true),
        Pos::CheckingDownload => Event::DownloadChecked(None),
        Pos::Reowning(_) => Event::OwnershipChanged(StepOutcome::Success),
        Pos::Restarting(_) => Event::ServiceRestarted(StepOutcome::Success),
        Pos::NotStarted => Event::Settled,
        Pos::Complete => Event::Settled,
        Pos::Aborted => Event::Settled,
    }
}

/// Outside steps of the restart phase and after.
pub open spec fn steps_from_restart(v: TaskView) -> int {
    v.services.len() as int
}

/// Outside steps of the ownership phase and after.
pub open spec fn steps_from_reown(v: TaskView) -> int {
    (if v.has_owner() {
        v.target_paths.len() as int
    } else {
        0
    }) + steps_from_restart(v)
}

/// Outside steps of the download phase (start, final poll, error check) and
/// after.
pub open spec fn steps_from_download(v: TaskView) -> int {
    3 + steps_from_reown(v)
}

/// Outside steps still ahead of `v` if every remaining step succeeds and
/// each liveness poll finds the download finished.
pub open spec fn steps_left(v: TaskView) -> int {
    match v.pos {
        Pos::NotStarted => v.services.len() + v.paths.len() + 1 + steps_from_download(v),
        Pos::Stopping(i) => (v.services.len() - i) + v.paths.len() + 1 + steps_from_download(v),
        Pos::Removing(i) => (v.paths.len() - i) + 1 + steps_from_download(v),
        Pos::Settling => 1 + steps_from_download(v),
        Pos::StartingDownload => steps_from_download(v),
        Pos::PollingDownload => 2 + steps_from_reown(v),
        Pos::CheckingDownload => 1 + steps_from_reown(v),
        Pos::Reowning(i) => (v.target_paths.len() - i) + steps_from_restart(v),
        Pos::Restarting(i) => v.services.len() - i,
        Pos::Complete => 0,
        Pos::Aborted => 0,
    }
}

/// The state of a task freshly built from `config`, before its run starts.
pub open spec fn initial_view(config: UpdateConfig) -> TaskView {
    TaskView {
        pos: Pos::NotStarted,
        stage: Stage::Init,
        running: false,
        error: None,
        services: config.services_to_stop.deep_view(),
        paths: config.paths_to_remove.deep_view(),
        user: config.target_user.deep_view(),
        group: config.target_group.deep_view(),
        target_paths: config.target_paths.deep_view(),
    }
}

/// The state of `v` right after its run is launched: any prior error is
/// cleared, the run is in flight, and the first phase that has an outside
/// step is pending.
pub open spec fn started(v: TaskView) -> TaskView {
    TaskView { error: None, ..advanced(v, pos_from_stopping(v, 0)) }
}

/// One in-flight (or completed) maintenance run. Created by the registry
/// when a start request is accepted; mutated only through `start` and
/// `apply`; read at any time through `is_running` and `get_progress`.
pub struct UpdateTask {
    pub pos: Pos,
    pub stage: Stage,
    pub running: bool,
    pub error: Option<String>,
    pub services_to_stop: Vec<String>,
    pub paths_to_remove: Vec<String>,
    pub target_user: Option<String>,
    pub target_group: Option<String>,
    pub target_paths: Vec<String>,
}

impl View for UpdateTask {
    type V = TaskView;

    open spec fn view(&self) -> TaskView {
        TaskView {
            pos: self.pos,
            stage: self.stage,
            running: self.running,
            error: self.error.deep_view(),
            services: self.services_to_stop.deep_view(),
            paths: self.paths_to_remove.deep_view(),
            user: self.target_user.deep_view(),
            group: self.target_group.deep_view(),
            target_paths: self.target_paths.deep_view(),
        }
    }
}

/// The stage reported at position `p`.
fn stage_for(p: Pos) -> (s: Stage)
    ensures
        s == stage_of_pos(p),
{
    match p {
        Pos::NotStarted => Stage::Init,
        Pos::Stopping(_) => Stage::StoppingServices,
        Pos::Removing(_) => Stage::RemovingOldFiles,
        Pos::Settling => Stage::RemovingOldFiles,
        Pos::StartingDownload => Stage::Downloading,
        Pos::PollingDownload => Stage::Downloading,
        Pos::CheckingDownload => Stage::Downloading,
        Pos::Reowning(_) => Stage::ChangingOwnership,
        Pos::Restarting(_) => Stage::StartingService,
        Pos::Complete => Stage::Finished,
        Pos::Aborted => Stage::Finished,
    }
}

/// Whether the run is in flight at position `p`.
fn is_active(p: Pos) -> (b: bool)
    ensures
        b == pos_active(p),
{
    match p {
        Pos::NotStarted => false,
        Pos::Complete => false,
        Pos::Aborted => false,
        _ => true,
    }
}

impl UpdateTask {
    /// A freshly configured task whose run has not started yet.
    pub fn new(config: UpdateConfig) -> (t: UpdateTask)
        ensures
            t@ == initial_view(config),
            t@.wf(),
    {
        let t = UpdateTask {
            pos: Pos::NotStarted,
            stage: Stage::Init,
            running: false,
            error: None,
            services_to_stop: config.services_to_stop,
            paths_to_remove: config.paths_to_remove,
            target_user: config.target_user,
            target_group: config.target_group,
            target_paths: config.target_paths,
        };
        proof {
            assert(t.services_to_stop.len() == t.services_to_stop@.len());
            assert(t.paths_to_remove.len() == t.paths_to_remove@.len());
            assert(t.target_paths.len() == t.target_paths@.len());
        }
        t
    }

    /// Non-blocking read of the running flag.
    pub fn is_running(&self) -> (b: bool)
        ensures
            b == self@.running,
    {
        self.running
    }

    fn pos_after_stopping(&self, i: usize) -> (p: Pos)
        ensures
            p == pos_from_stopping(self@, i),
    {
        if i < self.services_to_stop.len() {
            Pos::Stopping(i)
        } else {
            self.pos_after_removing(0)
        }
    }

    fn pos_after_removing(&self, i: usize) -> (p: Pos)
        ensures
            p == pos_from_removing(self@, i),
    {
        if i < self.paths_to_remove.len() {
            Pos::Removing(i)
        } else {
            Pos::Settling
        }
    }

    fn pos_after_reowning(&self, i: usize) -> (p: Pos)
        ensures
            p == pos_from_reowning(self@, i),
    {
        if self.target_user.is_some() && self.target_group.is_some() && i
            < self.target_paths.len() {
            Pos::Reowning(i)
        } else {
            self.pos_after_restarting(0)
        }
    }

    fn pos_after_restarting(&self, i: usize) -> (p: Pos)
        ensures
            p == pos_from_restarting(self@, i),
    {
        if i < self.services_to_stop.len() {
            Pos::Restarting(i)
        } else {
            Pos::Complete
        }
    }

    /// Move to position `p`, letting stage and running flag follow it.
    fn advance_to(&mut self, p: Pos)
        ensures
            final(self)@ == advanced(old(self)@, p),
    {
        self.pos = p;
        self.stage = stage_for(p);
        self.running = is_active(p);
    }

    /// Abort the run: record `msg`, keep the stage, stop running.
    fn fail_with(&mut self, msg: String)
        ensures
            final(self)@ == failed(old(self)@, msg@),
    {
        self.pos = Pos::Aborted;
        self.running = false;
        self.error = Some(msg);
    }

    /// Launch the run. Fails with `AlreadyRunning`, without any other
    /// effect, if the run is already in flight; otherwise clears any prior
    /// error, marks the task running, and leaves the first outside step of
    /// the fixed stop, clean, fetch, reown, restart order pending.
    pub fn start(&mut self) -> (r: Result<(), ErrorKind>)
        requires
            old(self)@.wf(),
        ensures
            final(self)@.wf(),
            old(self)@.running ==> r == Result::<(), ErrorKind>::Err(ErrorKind::AlreadyRunning)
                && final(self)@ == old(self)@,
            !old(self)@.running ==> r == Result::<(), ErrorKind>::Ok(()) && final(self)@ == started(
                old(self)@,
            ),
    {
        if self.running {
            return Err(ErrorKind::AlreadyRunning);
        }
        self.error = None;
        let p = self.pos_after_stopping(0);
        self.advance_to(p);
        Ok(())
    }

    /// Report the outcome of the pending outside step. The task moves exactly
    /// as the transition relation `step` says: forward on success, to the
    /// absorbing aborted position with the error recorded on failure, and not
    /// at all on an event that does not answer the pending action.
    pub fn apply(&mut self, e: Event)
        requires
            old(self)@.wf(),
        ensures
            final(self)@ == step(old(self)@, e),
            final(self)@.wf(),
    {
        match self.pos {
            Pos::Stopping(i) => match e {
                Event::ServiceStopped(StepOutcome::Success) => {
                    assert(i < self.services_to_stop.len());
                    let p = self.pos_after_stopping(i + 1);
                    self.advance_to(p);
                },
                Event::ServiceStopped(StepOutcome::Failure(m)) => {
                    let msg = String::from_str("Failed to stop process ").concat(
                        self.services_to_stop[i].as_str(),
                    ).concat(": ").concat(m.as_str());
                    self.fail_with(msg);
                },
                _ => {},
            },
            Pos::Removing(i) => match e {
                Event::PathRemoved(RemoveOutcome::Removed) => {
                    assert(i < self.paths_to_remove.len());
                    let p = self.pos_after_removing(i + 1);
                    self.advance_to(p);
                },
                Event::PathRemoved(RemoveOutcome::Missing) => {
                    assert(i < self.paths_to_remove.len());
                    let p = self.pos_after_removing(i + 1);
                    self.advance_to(p);
                },
                Event::PathRemoved(RemoveOutcome::FailedDir(m)) => {
                    let msg = String::from_str("Error removing directory: ").concat(m.as_str());
                    self.fail_with(msg);
                },
                Event::PathRemoved(RemoveOutcome::FailedFile(m)) => {
                    let msg = String::from_str("Error removing file: ").concat(m.as_str());
                    self.fail_with(msg);
                },
                _ => {},
            },
            Pos::Settling => match e {
                Event::Settled => {
                    self.advance_to(Pos::StartingDownload);
                },
                _ => {},
            },
            Pos::StartingDownload => match e {
                Event::DownloadStarted(StepOutcome::Success) => {
                    self.advance_to(Pos::PollingDownload);
                },
                Event::DownloadStarted(StepOutcome::Failure(m)) => {
                    let msg = String::from_str("Error started downloading: ").concat(m.as_str());
                    self.fail_with(msg);
                },
                _ => {},
            },
            Pos::PollingDownload => match e {
                Event::DownloadPolled(finished) => {
                    if finished {
                        self.advance_to(Pos::CheckingDownload);
                    }
                },
                _ => {},
            },
            Pos::CheckingDownload => match e {
                Event::DownloadChecked(None) => {
                    let p = self.pos_after_reowning(0);
                    self.advance_to(p);
                },
                Event::DownloadChecked(Some(m)) => {
                    let msg = String::from_str("Download failed with error: ").concat(m.as_str());
                    self.fail_with(msg);
                },
                _ => {},
            },
            Pos::Reowning(i) => match e {
                Event::OwnershipChanged(StepOutcome::Success) => {
                    assert(i < self.target_paths.len());
                    let p = self.pos_after_reowning(i + 1);
                    self.advance_to(p);
                },
                Event::OwnershipChanged(StepOutcome::Failure(m)) => {
                    let msg = String::from_str("Error changing owner: ").concat(m.as_str());
                    self.fail_with(msg);
                },
                _ => {},
            },
            Pos::Restarting(i) => match e {
                Event::ServiceRestarted(StepOutcome::Success) => {
                    assert(i < self.services_to_stop.len());
                    let p = self.pos_after_restarting(i + 1);
                    self.advance_to(p);
                },
                Event::ServiceRestarted(StepOutcome::Failure(m)) => {
                    let msg = String::from_str("Error starting service: ").concat(m.as_str());
                    self.fail_with(msg);
                },
                _ => {},
            },
            Pos::NotStarted => {},
            Pos::Complete => {},
            Pos::Aborted => {},
        }
    }

    /// The outside step the surrounding program must perform next.
    pub fn next_action(&self) -> (a: Action)
        ensures
            a == action_of(self@),
    {
        match self.pos {
            Pos::NotStarted => Action::Idle,
            Pos::Stopping(i) => Action::StopService(i),
            Pos::Removing(i) => Action::RemovePath(i),
            Pos::Settling => Action::SettleDelay,
            Pos::StartingDownload => Action::StartDownload,
            Pos::PollingDownload => Action::PollDownload,
            Pos::CheckingDownload => Action::CheckDownloadError,
            Pos::Reowning(i) => Action::ChangeOwner(i),
            Pos::Restarting(i) => Action::RestartService(i),
            Pos::Complete => Action::Done,
            Pos::Aborted => Action::Done,
        }
    }

    /// Non-blocking snapshot of this run: its stage, its terminal error if
    /// any, and whatever sub-progress the download capability reported to
    /// the caller, passed through untouched.
    pub fn get_progress(&self, download_progress: Option<String>) -> (p: ProgressSnapshot)
        ensures
            p.stage == Some(self.stage),
            p.error_message == self.error,
            p.download_progress == download_progress,
    {
        let error_message = match &self.error {
            Some(s) => Some(s.clone()),
            None => None,
        };
        ProgressSnapshot { stage: Some(self.stage), error_message, download_progress }
    }

    /// The kind of failure this run ended with, if it ended with one,
    /// derived from the stage the error froze.
    pub fn failure_kind(&self) -> (k: Option<ErrorKind>)
        ensures
            k == failure_kind_of(self@),
    {
        if self.error.is_some() {
            match self.stage {
                Stage::StoppingServices => Some(ErrorKind::ServiceControlFailure),
                Stage::RemovingOldFiles => Some(ErrorKind::CleanupFailure),
                Stage::Downloading => Some(ErrorKind::DownloadFailure),
                Stage::ChangingOwnership => Some(ErrorKind::OwnershipChangeFailure),
                Stage::StartingService => Some(ErrorKind::ServiceControlFailure),
                _ => None,
            }
        } else {
            None
        }
    }
}

/// The kind of failure recorded at state `v`, if any: each failable stage
/// maps to the failure kind of the step it runs.
pub open spec fn failure_kind_of(v: TaskView) -> Option<ErrorKind> {
    if v.error is Some {
        match v.stage {
            Stage::StoppingServices => Some(ErrorKind::ServiceControlFailure),
            Stage::RemovingOldFiles => Some(ErrorKind::CleanupFailure),
            Stage::Downloading => Some(ErrorKind::DownloadFailure),
            Stage::ChangingOwnership => Some(ErrorKind::OwnershipChangeFailure),
            Stage::StartingService => Some(ErrorKind::ServiceControlFailure),
            _ => None,
        }
    } else {
        None
    }
}

} // verus!

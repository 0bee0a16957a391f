use crate::config::UpdateConfig;
use crate::progress::ProgressSnapshot;
use crate::stage::ErrorKind;
use crate::task::{initial_view, started, UpdateTask};
use vstd::prelude::*;

verus! {

/// Process-wide holder of the at-most-one current maintenance run. All
/// callers reach the run through it; it serializes start requests against
/// the run in flight (single-flight).
pub struct UpdateRegistry {
    pub current: Option<UpdateTask>,
    /// Recorded by the inert pause request; deliberately wired to nothing.
    pub started: bool,
}

impl UpdateRegistry {
    /// The current task, if any, is a well-formed run.
    pub open spec fn wf(self) -> bool {
        self.current matches Some(t) ==> t@.wf()
    }

    /// A start request is accepted exactly when no run is in flight.
    pub open spec fn accepts_start(self) -> bool {
        !(self.current matches Some(t) && t@.running)
    }

    /// The empty registry a process begins with: no run yet.
    pub fn new() -> (r: UpdateRegistry)
        ensures
            r.current is None,
            !r.started,
            r.wf(),
    {
        UpdateRegistry { current: None, started: false }
    }

    /// Serialized start: rejected with `AlreadyRunning`, constructing
    /// nothing and changing nothing, while the current run is in flight;
    /// otherwise a new task is built from `config`, launched, and stored as
    /// the current one, replacing any previous (necessarily finished) run.
    pub fn request_start(&mut self, config: UpdateConfig) -> (r: Result<(), ErrorKind>)
        requires
            old(self).wf(),
        ensures
            final(self).wf(),
            !old(self).accepts_start() ==> r == Result::<(), ErrorKind>::Err(
                ErrorKind::AlreadyRunning,
            ) && *final(self) == *old(self),
            old(self).accepts_start() ==> r == Result::<(), ErrorKind>::Ok(())
                && final(self).started == old(self).started
                && (final(self).current matches Some(t)
                    && t@ == started(initial_view(config))),
    {
        match &self.current {
            Some(t) => {
                if t.is_running() {
                    return Err(ErrorKind::AlreadyRunning);
                }
            },
            None => {},
        }
        let mut task = UpdateTask::new(config);
        let _ = task.start();
        self.current = Some(task);
        Ok(())
    }

    /// The current run's snapshot, or the no-task sentinel if none exists
    /// yet. A pure read: the registry and its run are left untouched.
    pub fn current_progress(&self, download_progress: Option<String>) -> (p: ProgressSnapshot)
        ensures
            self.current is None ==> p.stage is None && p.error_message is None
                && p.download_progress is None,
            self.current matches Some(t) ==> p.stage == Some(t.stage) && p.error_message == t.error
                && p.download_progress == download_progress,
    {
        match &self.current {
            Some(t) => t.get_progress(download_progress),
            None => ProgressSnapshot { stage: None, error_message: None, download_progress: None },
        }
    }

    /// The inert pause request: records that it was called, nothing more.
    /// It has no observable effect on the current run.
    pub fn set_started(&mut self)
        requires
            old(self).wf(),
        ensures
            final(self).wf(),
            final(self).started,
            final(self).current == old(self).current,
    {
        self.started = true;
    }
}

} // verus!

use crate::stage::{spec_stage_name, Stage};
use vstd::prelude::*;

verus! {

/// An immutable, point-in-time projection of a run: the stage it is in, its
/// terminal error if one was recorded, and whatever sub-progress the
/// download capability reported. Assembled on demand, never stored.
#[derive(Debug)]
pub struct ProgressSnapshot {
    /// `None` is the no-task sentinel, reported before any run was started.
    pub stage: Option<Stage>,
    pub error_message: Option<String>,
    pub download_progress: Option<String>,
}

impl ProgressSnapshot {
    /// The reported stage name; `"no_task"` before any run exists.
    pub fn stage_name(&self) -> (r: &'static str)
        ensures
            self.stage is None ==> r@ == "no_task"@,
            self.stage matches Some(s) ==> r@ == spec_stage_name(s),
    {
        match &self.stage {
            Some(s) => s.name(),
            None => "no_task",
        }
    }
}

} // verus!

use vstd::prelude::*;

verus! {

/// The pipeline's position in its fixed step order, exposed for polling.
///
/// Within one run the stage only ever moves forward through this total
/// order; a failed run keeps the stage it failed in, with the error field
/// of the task set.
#[derive(Clone, Copy, PartialEq, Eq, Structural, Debug)]
pub enum Stage {
    Init,
    StoppingServices,
    RemovingOldFiles,
    Downloading,
    ChangingOwnership,
    StartingService,
    Finished,
}

/// Rank of a stage in the fixed total order.
pub open spec fn stage_index(s: Stage) -> int {
    match s {
        Stage::Init => 0,
        Stage::StoppingServices => 1,
        Stage::RemovingOldFiles => 2,
        Stage::Downloading => 3,
        Stage::ChangingOwnership => 4,
        Stage::StartingService => 5,
        Stage::Finished => 6,
    }
}

/// The name under which each stage is reported to pollers.
pub open spec fn spec_stage_name(s: Stage) -> Seq<char> {
    match s {
        Stage::Init => "init"@,
        Stage::StoppingServices => "stopping_services"@,
        Stage::RemovingOldFiles => "removing_old_files"@,
        Stage::Downloading => "downloading"@,
        Stage::ChangingOwnership => "changing_ownership"@,
        Stage::StartingService => "starting_service"@,
        Stage::Finished => "finished"@,
    }
}

impl Stage {
    /// The stage's reported name.
    pub fn name(&self) -> (r: &'static str)
        ensures
            r@ == spec_stage_name(*self),
    {
        match self {
            Stage::Init => "init",
            Stage::StoppingServices => "stopping_services",
            Stage::RemovingOldFiles => "removing_old_files",
            Stage::Downloading => "downloading",
            Stage::ChangingOwnership => "changing_ownership",
            Stage::StartingService => "starting_service",
            Stage::Finished => "finished",
        }
    }
}

/// The kind of failure that ends a run (or rejects a start request).
///
/// Every failure is terminal to its run: nothing is retried, and the run's
/// task records a single human-readable message beside the stage it was in.
#[derive(Clone, Copy, PartialEq, Eq, Structural, Debug)]
pub enum ErrorKind {
    AlreadyRunning,
    ServiceControlFailure,
    CleanupFailure,
    DownloadFailure,
    OwnershipChangeFailure,
}

} // verus!

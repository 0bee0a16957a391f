//! A verified core for an unattended host-maintenance service.
//!
//! The library models one maintenance run as a state machine: stop the
//! configured services, delete stale artifacts, fetch and unpack a remote
//! archive through an external download capability, fix file ownership, and
//! restart the services — in that fixed order, aborting on the first failure.
//! A process-wide registry enforces that at most one run is in flight, and a
//! progress snapshot exposes the current stage and terminal error to pollers.
//!
//! All outside effects (service control, filesystem removal, the download
//! itself, ownership changes, timers) are performed by the surrounding
//! program, which asks the state machine for the next action to perform and
//! reports each outcome back as an event.

pub mod config;
pub mod laws;
pub mod progress;
pub mod registry;
pub mod stage;
pub mod task;

//! What can go wrong in a backup run.

use crate::common::process::{ExitOutcome, SupervisorError};
use crate::k8s::scale::ScaleError;
use vstd::prelude::*;

verus! {

/// A setting that is missing or cannot be used.
#[derive(Clone, Copy, Debug, PartialEq, Eq, Structural)]
pub enum ConfigurationError {
    /// The compressed flavour was chosen but its settings were not supplied.
    MissingCompressedSettings,
    /// The incremental flavour was chosen but its settings were not
    /// supplied.
    MissingIncrementalSettings,
    /// A database backup is enabled but its settings were not supplied.
    MissingDatabaseSettings,
    /// The current time lies outside the calendar's range.
    TimestampOutOfRange,
    /// A connection string is not a valid URL.
    InvalidUrl,
    /// A connection string names no host.
    MissingHost,
    /// Neither the settings nor the mounted file name the workload's
    /// namespace.
    NamespaceUnresolved,
}

/// Why a backup step failed.
#[derive(Clone, Copy, Debug, PartialEq, Eq)]
pub enum BackupError {
    /// Supervision of the external program failed or timed out.
    Supervisor(SupervisorError),
    /// The external program ran to termination, but not to success.
    AbnormalExit(ExitOutcome),
    /// A required setting is missing or unusable.
    Configuration(ConfigurationError),
    /// The workload could not be scaled.
    Scale(ScaleError),
    /// The filesystem refused something the step needs.
    Io,
}

/// Whether a supervised step counts as done, so that the steps depending on
/// it may go ahead: only a clean exit does.
pub open spec fn spec_step_result(result: Result<ExitOutcome, SupervisorError>) -> Result<
    (),
    BackupError,
> {
    match result {
        Ok(ExitOutcome::Success) => Ok(()),
        Ok(outcome) => Err(BackupError::AbnormalExit(outcome)),
        Err(error) => Err(BackupError::Supervisor(error)),
    }
}

/// Turns what the supervisor handed back into the fate of the step: any
/// exit but a clean one fails it, with its cause kept.
pub fn step_result(result: Result<ExitOutcome, SupervisorError>) -> (fate: Result<(), BackupError>)
    ensures
        fate == spec_step_result(result),
{
    match result {
        Ok(ExitOutcome::Success) => Ok(()),
        Ok(outcome) => Err(BackupError::AbnormalExit(outcome)),
        Err(error) => Err(BackupError::Supervisor(error)),
    }
}

} // verus!

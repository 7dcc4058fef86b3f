//! The one capability every backup flavour offers: turning the name of the
//! next backup into a job to run.

use crate::common::command::{BackupJob, BackupJobView};
use vstd::prelude::*;

verus! {

/// A backup flavour, configured and ready to produce its job.
pub trait BackupClient {
    /// The job that backs the source up under `base_filename`.
    spec fn job(&self, base_filename: Seq<char>) -> BackupJobView;

    /// Builds the job that backs the source up under `base_filename`.
    /// Nothing is started: running the job is for the supervisor.
    fn run_backup(&self, base_filename: &str) -> (job: BackupJob)
        ensures
            job@ == self.job(base_filename@),
    ;
}

} // verus!

//! The compressed flavour: one `tar` archive of the whole source tree.

pub mod tar_backup_client;

use crate::app_config::AppConfig;
use crate::common::command::BackupJob;
use crate::file::backup_client::BackupClient;
use crate::file::config::TarConfig;
use crate::file::tar::tar_backup_client::{tar_job, TarBackupClient};
use vstd::prelude::*;

verus! {

/// Builds the job for a compressed archive called `filename`.
pub fn make_tar_gz(app_config: &AppConfig, tar_config: TarConfig, filename: &str) -> (job: BackupJob)
    ensures
        job@ == tar_job(app_config, tar_config, filename@),
{
    let client = TarBackupClient::new(app_config, tar_config);
    client.run_backup(filename)
}

} // verus!

//! The incremental flavour: an `rsync` mirror that shares unchanged files
//! with the previous backup.

pub mod rsync_backup_client;

use crate::app_config::AppConfig;
use crate::common::command::BackupJob;
use crate::file::backup_client::BackupClient;
use crate::file::config::RsyncConfig;
use crate::file::rsync::rsync_backup_client::{rsync_job, RsyncBackupClient};
use vstd::prelude::*;

verus! {

/// Builds the job for an incremental backup called `name` that links
/// unchanged files against `previous_backup`, if there is one.
pub fn make_incremental_backup(
    app_config: &AppConfig,
    rsync_config: RsyncConfig,
    name: &str,
    previous_backup: Option<&str>,
) -> (job: BackupJob)
    ensures
        job@ == rsync_job(
            app_config,
            rsync_config,
            match previous_backup {
                Some(path) => Some(path@),
                None => None,
            },
            name@,
        ),
{
    let client = RsyncBackupClient::new(app_config, rsync_config, previous_backup);
    client.run_backup(name)
}

} // verus!

//! Which database dumps a run makes, and where.

use crate::app_config::AppConfig;
use crate::common::command::{BackupJob, BackupJobView};
use crate::common::paths::{joined_path, join_path};
use vstd::prelude::*;

verus! {

/// One database dump: the directory to create first and the job that
/// fills it.
#[derive(Clone, Debug, PartialEq, Eq)]
pub struct DatabaseBackup {
    pub directory: String,
    pub job: BackupJob,
}

/// The mathematical content of a `DatabaseBackup`.
pub struct DatabaseBackupView {
    pub directory: Seq<char>,
    pub job: BackupJobView,
}

impl View for DatabaseBackup {
    type V = DatabaseBackupView;

    open spec fn view(&self) -> DatabaseBackupView {
        DatabaseBackupView { directory: self.directory@, job: self.job@ }
    }
}

/// Which database dumps are to be made. The PostgreSQL dump comes first;
/// a failure of either ends the run.
#[derive(Clone, Debug, PartialEq, Eq)]
pub struct DatabaseBackupPlan {
    /// Where the dumps go, below the source tree.
    pub backup_path: String,
    /// Whether `backup_path` has to be created: only if a dump is made.
    pub create_backup_path: bool,
    pub postgres: bool,
    pub mongo: bool,
}

/// Whether a switch is on; an unset one is off.
pub open spec fn enabled(switch: Option<bool>) -> bool {
    switch == Some(true)
}

/// Decides which database dumps this run makes and where they go: into
/// `db` below the source tree, so that the file backup takes them along.
pub fn backup_db(app_config: &AppConfig) -> (plan: DatabaseBackupPlan)
    ensures
        plan.backup_path@ == joined_path(app_config.source_path@, "db"@),
        plan.postgres == enabled(app_config.postgres_backup_enabled),
        plan.mongo == enabled(app_config.mongo_backup_enabled),
        plan.create_backup_path == (plan.postgres || plan.mongo),
{
    let postgres = match app_config.postgres_backup_enabled {
        Some(on) => on,
        None => false,
    };
    let mongo = match app_config.mongo_backup_enabled {
        Some(on) => on,
        None => false,
    };
    let backup_path = join_path(app_config.source_path.as_str(), "db");
    DatabaseBackupPlan { backup_path, create_backup_path: postgres || mongo, postgres, mongo }
}

} // verus!

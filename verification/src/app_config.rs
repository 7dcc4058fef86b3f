//! Settings of one backup run.

use crate::common::backup_type::BackupType;
use vstd::prelude::*;

verus! {

/// What to back up, where to, and how much to keep.
#[derive(Clone, Debug)]
pub struct AppConfig {
    pub backup_name: String,
    pub source_path: String,
    pub destination_path: String,
    /// How many backups to keep, the newest included; zero keeps all.
    pub max_number_of_backups: u64,
    pub scale_deployment_enabled: Option<bool>,
    pub postgres_backup_enabled: Option<bool>,
    pub mongo_backup_enabled: Option<bool>,
    pub backup_type: Option<BackupType>,
}

impl AppConfig {
    /// The flavour of file backup to make: incremental unless configured
    /// otherwise.
    pub open spec fn effective_backup_type(&self) -> BackupType {
        match self.backup_type {
            Some(backup_type) => backup_type,
            None => BackupType::Incremental,
        }
    }
}

impl Default for AppConfig {
    fn default() -> (config: AppConfig)
        ensures
            config.backup_name@ == Seq::<char>::empty(),
            config.source_path@ == Seq::<char>::empty(),
            config.destination_path@ == Seq::<char>::empty(),
            config.max_number_of_backups == 0,
            config.scale_deployment_enabled is None,
            config.postgres_backup_enabled is None,
            config.mongo_backup_enabled is None,
            config.backup_type is None,
    {
        AppConfig {
            backup_name: String::new(),
            source_path: String::new(),
            destination_path: String::new(),
            max_number_of_backups: 0,
            scale_deployment_enabled: None,
            postgres_backup_enabled: None,
            mongo_backup_enabled: None,
            backup_type: None,
        }
    }
}

} // verus!

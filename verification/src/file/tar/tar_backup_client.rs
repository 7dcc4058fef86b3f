//! Builds the archiver's command line.

use crate::app_config::AppConfig;
use crate::common::command::{
    optional_text, BackupJob, BackupJobView, CommandSpec, CommandView,
};
use crate::common::paths::{joined_path, join_path, path_with_extension, set_path_extension};
use crate::common::process::create_command;
use crate::file::backup_client::BackupClient;
use crate::file::config::TarConfig;
use vstd::prelude::*;

verus! {

/// Prefix of the environment variables that configure the archiver.
pub const COMPRESSED_CONFIG_PREFIX: &'static str = "COMPRESSED_";

/// Seconds the archiver may run unless configured otherwise: sixty minutes.
pub const DEFAULT_TIMEOUT_SECS: u64 = 3600;

/// The archiver's arguments: create a compressed archive at `destination`,
/// leave out what the exclude file lists, and take everything below
/// `source`.
pub open spec fn tar_arguments(
    destination: Seq<char>,
    exclude_file: Option<Seq<char>>,
    source: Seq<char>,
) -> Seq<Seq<char>> {
    seq!["-zcvf"@, destination] + (match exclude_file {
        Some(path) => seq!["--exclude-from"@, path],
        None => Seq::empty(),
    }) + seq!["-C"@, source, "."@]
}

/// Where the archive named `filename` is written below `destination_path`.
pub open spec fn archive_path(destination_path: Seq<char>, filename: Seq<char>) -> Seq<char> {
    path_with_extension(joined_path(destination_path, filename), "tar.gz"@)
}

/// The command that archives the source of `app_config` at
/// `destination_filepath`.
pub open spec fn tar_command(
    app_config: &AppConfig,
    tar_config: TarConfig,
    destination_filepath: Seq<char>,
) -> CommandView {
    CommandView::captured("tar"@).with_args(
        tar_arguments(
            destination_filepath,
            optional_text(tar_config.exclude_file_path),
            app_config.source_path@,
        ),
    )
}

/// The job that archives the source as `base_filename` with the extension
/// `tar.gz` below the destination, within the configured timeout or sixty
/// minutes.
pub open spec fn tar_job(app_config: &AppConfig, tar_config: TarConfig, base_filename: Seq<char>) -> BackupJobView {
    BackupJobView {
        command: tar_command(
            app_config,
            tar_config,
            archive_path(app_config.destination_path@, base_filename),
        ),
        timeout: Some(
            match tar_config.timeout {
                Some(secs) => secs,
                None => DEFAULT_TIMEOUT_SECS,
            },
        ),
        stderr_as_stdout: false,
    }
}

/// The compressed flavour of file backup.
pub struct TarBackupClient<'a> {
    pub app_config: &'a AppConfig,
    pub tar_config: TarConfig,
}

impl<'a> TarBackupClient<'a> {
    /// The command that writes the archive to `destination_filepath`.
    pub open spec fn command(&self, destination_filepath: Seq<char>) -> CommandView {
        tar_command(self.app_config, self.tar_config, destination_filepath)
    }

    /// A client for the source and destination of `app_config`.
    pub fn new(app_config: &'a AppConfig, tar_config: TarConfig) -> (client: TarBackupClient<'a>)
        ensures
            client.app_config == app_config,
            client.tar_config == tar_config,
    {
        TarBackupClient { app_config, tar_config }
    }

    /// Builds the archiver's command for an archive at
    /// `destination_filepath`.
    pub fn execute_tar(&self, destination_filepath: &str) -> (command: CommandSpec)
        ensures
            command@ == self.command(destination_filepath@),
    {
        let mut command = create_command("tar");
        command.arg("-zcvf");
        command.arg(destination_filepath);
        if let Some(excludes) = &self.tar_config.exclude_file_path {
            command.arg("--exclude-from");
            command.arg(excludes.as_str());
        }
        command.arg("-C");
        command.arg(self.app_config.source_path.as_str());
        command.arg(".");
        assert(command@.args =~= tar_arguments(
            destination_filepath@,
            optional_text(self.tar_config.exclude_file_path),
            self.app_config.source_path@,
        ));
        command
    }
}

impl<'a> BackupClient for TarBackupClient<'a> {
    open spec fn job(&self, base_filename: Seq<char>) -> BackupJobView {
        tar_job(self.app_config, self.tar_config, base_filename)
    }

    fn run_backup(&self, base_filename: &str) -> (job: BackupJob) {
        let joined = join_path(self.app_config.destination_path.as_str(), base_filename);
        proof {
            reveal_strlit("tar.gz");
        }
        let destination_filepath = set_path_extension(joined.as_str(), "tar.gz");
        let timeout: u64 = match self.tar_config.timeout {
            Some(secs) => secs,
            None => DEFAULT_TIMEOUT_SECS,
        };
        let command = self.execute_tar(destination_filepath.as_str());
        BackupJob { command, timeout: Some(timeout), stderr_as_stdout: false }
    }
}

} // verus!

//! Builds the mirroring tool's command line.

use crate::app_config::AppConfig;
use crate::common::command::{
    optional_text, BackupJob, BackupJobView, CommandSpec, CommandView,
};
use crate::common::paths::{as_directory_path, directory_path, joined_path, join_path};
use crate::common::process::create_command;
use crate::file::backup_client::BackupClient;
use crate::file::config::RsyncConfig;
use vstd::prelude::*;
use vstd::string::StringExecFns;

verus! {

/// Prefix of the environment variables that configure the mirror.
pub const INCREMENTAL_CONFIG_PREFIX: &'static str = "INCR_";

/// Seconds the mirror may run unless configured otherwise: five minutes.
pub const DEFAULT_TIMEOUT_SECS: u64 = 300;

/// The mirror's bundled short options: archive mode, compression and
/// progress, plus keeping owner and group where one is to be set.
pub open spec fn rsync_flags(set_owner: bool, set_group: bool) -> Seq<char> {
    "-azP"@ + (if set_owner {
        "o"@
    } else {
        Seq::empty()
    }) + (if set_group {
        "g"@
    } else {
        Seq::empty()
    })
}

/// The owner and group to give the copies, as `owner:group`, either part
/// empty where it is not configured.
pub open spec fn chown_value(owner: Option<Seq<char>>, group: Option<Seq<char>>) -> Seq<char> {
    (match owner {
        Some(name) => name,
        None => Seq::empty(),
    }) + ":"@ + (match group {
        Some(name) => name,
        None => Seq::empty(),
    })
}

/// The mirror's arguments, in order: the bundled options and `--delete`;
/// the ownership to set, if any; `--whole-file` if asked for; the exclude
/// file, if any; the previous backup to link unchanged files against, if
/// any; the source named as a directory, so that its contents are copied
/// and not the directory itself; and the destination.
pub open spec fn rsync_arguments(
    owner: Option<Seq<char>>,
    group: Option<Seq<char>>,
    whole_file: bool,
    exclude_file: Option<Seq<char>>,
    previous_backup: Option<Seq<char>>,
    source: Seq<char>,
    destination: Seq<char>,
) -> Seq<Seq<char>> {
    seq![rsync_flags(owner is Some, group is Some), "--delete"@] + (if owner is Some
        || group is Some {
        seq!["--chown"@, chown_value(owner, group), "--super"@]
    } else {
        Seq::empty()
    }) + (if whole_file {
        seq!["--whole-file"@]
    } else {
        Seq::empty()
    }) + (match exclude_file {
        Some(path) => seq!["--exclude-from"@, path],
        None => Seq::empty(),
    }) + (match previous_backup {
        Some(path) => seq!["--link-dest"@, path],
        None => Seq::empty(),
    }) + seq![directory_path(source), destination]
}

/// The command that mirrors the source of `app_config` into
/// `destination_filepath`, linking against `previous_backup`.
pub open spec fn rsync_command(
    app_config: &AppConfig,
    rsync_config: RsyncConfig,
    previous_backup: Option<Seq<char>>,
    destination_filepath: Seq<char>,
) -> CommandView {
    CommandView::captured("rsync"@).with_args(
        rsync_arguments(
            optional_text(rsync_config.destination_owner),
            optional_text(rsync_config.destination_group),
            rsync_config.whole_file == Some(true),
            optional_text(rsync_config.exclude_file_path),
            previous_backup,
            app_config.source_path@,
            destination_filepath,
        ),
    )
}

/// The job that mirrors the source into the backup `base_filename` below
/// the destination, within the configured timeout or five minutes.
pub open spec fn rsync_job(
    app_config: &AppConfig,
    rsync_config: RsyncConfig,
    previous_backup: Option<Seq<char>>,
    base_filename: Seq<char>,
) -> BackupJobView {
    BackupJobView {
        command: rsync_command(
            app_config,
            rsync_config,
            previous_backup,
            joined_path(app_config.destination_path@, base_filename),
        ),
        timeout: Some(
            match rsync_config.timeout {
                Some(secs) => secs,
                None => DEFAULT_TIMEOUT_SECS,
            },
        ),
        stderr_as_stdout: false,
    }
}

/// The incremental flavour of file backup.
pub struct RsyncBackupClient<'a> {
    pub app_config: &'a AppConfig,
    pub rsync_config: RsyncConfig,
    /// The most recent existing backup, against which unchanged files are
    /// linked.
    pub previous_backup: Option<String>,
}

impl<'a> RsyncBackupClient<'a> {
    /// The command that mirrors the source into `destination_filepath`.
    pub open spec fn command(&self, destination_filepath: Seq<char>) -> CommandView {
        rsync_command(
            self.app_config,
            self.rsync_config,
            optional_text(self.previous_backup),
            destination_filepath,
        )
    }

    /// A client for the source and destination of `app_config` that links
    /// against `previous_backup`, if there is one.
    pub fn new(
        app_config: &'a AppConfig,
        rsync_config: RsyncConfig,
        previous_backup: Option<&str>,
    ) -> (client: RsyncBackupClient<'a>)
        ensures
            client.app_config == app_config,
            client.rsync_config == rsync_config,
            optional_text(client.previous_backup) == match previous_backup {
                Some(path) => Some(path@),
                None => None,
            },
    {
        let previous_backup = match previous_backup {
            Some(path) => Some(path.to_owned()),
            None => None,
        };
        RsyncBackupClient { app_config, rsync_config, previous_backup }
    }

    /// Builds the mirror's command for a backup at `destination_filepath`.
    pub fn execute_rsync(&self, destination_filepath: &str) -> (command: CommandSpec)
        ensures
            command@ == self.command(destination_filepath@),
    {
        let destination_owner = &self.rsync_config.destination_owner;
        let destination_group = &self.rsync_config.destination_group;
        let mut flags = String::from_str("-azP");
        if destination_owner.is_some() {
            flags.append("o");
        }
        if destination_group.is_some() {
            flags.append("g");
        }
        assert(flags@ =~= rsync_flags(destination_owner is Some, destination_group is Some));

        let mut command = create_command("rsync");
        command.arg(flags.as_str());
        command.arg("--delete");
        if destination_owner.is_some() || destination_group.is_some() {
            let mut chown = String::new();
            if let Some(owner) = destination_owner {
                chown.append(owner.as_str());
            }
            chown.append(":");
            if let Some(group) = destination_group {
                chown.append(group.as_str());
            }
            assert(chown@ =~= chown_value(
                optional_text(*destination_owner),
                optional_text(*destination_group),
            ));
            command.arg("--chown");
            command.arg(chown.as_str());
            command.arg("--super");
        }
        if let Some(whole_file) = self.rsync_config.whole_file {
            if whole_file {
                command.arg("--whole-file");
            }
        }
        if let Some(excludes) = &self.rsync_config.exclude_file_path {
            command.arg("--exclude-from");
            command.arg(excludes.as_str());
        }
        if let Some(previous) = &self.previous_backup {
            command.arg("--link-dest");
            command.arg(previous.as_str());
        }
        let final_source = as_directory_path(self.app_config.source_path.as_str());
        command.arg(final_source.as_str());
        command.arg(destination_filepath);
        assert(command@.args =~= rsync_arguments(
            optional_text(self.rsync_config.destination_owner),
            optional_text(self.rsync_config.destination_group),
            self.rsync_config.whole_file == Some(true),
            optional_text(self.rsync_config.exclude_file_path),
            optional_text(self.previous_backup),
            self.app_config.source_path@,
            destination_filepath@,
        ));
        command
    }
}

impl<'a> BackupClient for RsyncBackupClient<'a> {
    open spec fn job(&self, base_filename: Seq<char>) -> BackupJobView {
        rsync_job(
            self.app_config,
            self.rsync_config,
            optional_text(self.previous_backup),
            base_filename,
        )
    }

    fn run_backup(&self, base_filename: &str) -> (job: BackupJob) {
        let destination_filepath = join_path(
            self.app_config.destination_path.as_str(),
            base_filename,
        );
        let timeout: u64 = match self.rsync_config.timeout {
            Some(secs) => secs,
            None => DEFAULT_TIMEOUT_SECS,
        };
        let command = self.execute_rsync(destination_filepath.as_str());
        BackupJob { command, timeout: Some(timeout), stderr_as_stdout: false }
    }
}

} // verus!

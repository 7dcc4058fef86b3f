//! Planning one file backup: whether there is anything to back up, what
//! the new backup is called, which program makes it, and which older
//! backups go afterwards.

use crate::app_config::AppConfig;
use crate::common::backup_type::BackupType;
use crate::common::command::{optional_text, BackupJob, BackupJobView};
use crate::common::error::{BackupError, ConfigurationError};
use crate::file::backup_client::BackupClient;
use crate::file::config::{RsyncConfig, TarConfig};
use crate::file::dir_entry_priority::{BackupEntry, DirEntryPriority};
use crate::file::retention::{
    decide_evictions, entry_views, evictions, latest_backup, newest_first,
};
use crate::file::rsync::rsync_backup_client::{rsync_job, RsyncBackupClient};
use crate::file::tar::tar_backup_client::{tar_job, TarBackupClient};
use vstd::prelude::*;
use vstd::string::StringExecFns;

verus! {

/// How the time of a backup appears in its name: date, underscore, time of
/// day, as in `2001-07-08_003456`.
pub const TIMESTAMP_PATTERN: &'static str = "%F_%H%M%S";

/// One entry of the source tree, as far as planning needs to know it.
#[derive(Debug)]
pub enum SourceNode {
    /// Anything that is not a directory, with its size in bytes.
    File { size: u64 },
    /// A directory with what it holds.
    Directory { children: Vec<SourceNode> },
}

/// Whether `node`, found inside a directory, is a file of at least one byte
/// or a directory that holds one at any depth.
pub open spec fn counts_as_nonempty(node: SourceNode) -> bool
    decreases node, 0nat,
{
    match node {
        SourceNode::File { size } => size > 0,
        SourceNode::Directory { children } => any_counts_as_nonempty(children@, children@.len()),
    }
}

/// Whether one of the first `count` nodes of `nodes` counts as non-empty.
pub open spec fn any_counts_as_nonempty(nodes: Seq<SourceNode>, count: nat) -> bool
    decreases nodes, count,
{
    if count == 0 || count > nodes.len() {
        false
    } else {
        counts_as_nonempty(nodes[count - 1]) || any_counts_as_nonempty(nodes, (count - 1) as nat)
    }
}

/// Whether `node` is a directory that holds, at any depth, a file of at
/// least one byte. A node that is itself a file holds nothing.
pub open spec fn holds_nonempty_file(node: SourceNode) -> bool {
    node is Directory && counts_as_nonempty(node)
}

/// A directory counts as non-empty exactly if one of its entries does.
pub proof fn lemma_any_counts_as_nonempty(nodes: Seq<SourceNode>, count: nat)
    requires
        count <= nodes.len(),
    ensures
        any_counts_as_nonempty(nodes, count) <==> exists|i: int|
            0 <= i < count && counts_as_nonempty(#[trigger] nodes[i]),
    decreases count,
{
    if count > 0 {
        lemma_any_counts_as_nonempty(nodes, (count - 1) as nat);
        if counts_as_nonempty(nodes[count - 1]) {
        } else if any_counts_as_nonempty(nodes, (count - 1) as nat) {
            let i = choose|i: int| 0 <= i < count - 1 && counts_as_nonempty(#[trigger] nodes[i]);
            assert(0 <= i < count && counts_as_nonempty(nodes[i]));
        } else {
            assert forall|i: int| 0 <= i < count implies !counts_as_nonempty(
                #[trigger] nodes[i],
            ) by {
                if i < count - 1 {
                    assert(0 <= i < count - 1);
                }
            }
        }
    }
}

/// Whether every file of `node`, at any depth, has no bytes.
pub open spec fn all_files_empty(node: SourceNode) -> bool
    decreases node, 0nat,
{
    match node {
        SourceNode::File { size } => size == 0,
        SourceNode::Directory { children } => all_files_empty_among(children@, children@.len()),
    }
}

/// Whether every file among the first `count` nodes of `nodes`, at any
/// depth, has no bytes.
pub open spec fn all_files_empty_among(nodes: Seq<SourceNode>, count: nat) -> bool
    decreases nodes, count,
{
    if count == 0 || count > nodes.len() {
        true
    } else {
        all_files_empty(nodes[count - 1]) && all_files_empty_among(nodes, (count - 1) as nat)
    }
}

/// A tree of nothing but directories and zero-byte files holds no
/// non-empty file, so its backup is skipped.
pub proof fn lemma_zero_byte_tree_holds_nothing(node: SourceNode)
    requires
        all_files_empty(node),
    ensures
        !counts_as_nonempty(node),
        !holds_nonempty_file(node),
    decreases node, 0nat,
{
    match node {
        SourceNode::File { .. } => {},
        SourceNode::Directory { children } => {
            lemma_zero_byte_nodes_hold_nothing(children@, children@.len());
        },
    }
}

/// None of the first `count` nodes holds a non-empty file if all their
/// files are empty.
proof fn lemma_zero_byte_nodes_hold_nothing(nodes: Seq<SourceNode>, count: nat)
    requires
        count <= nodes.len(),
        all_files_empty_among(nodes, count),
    ensures
        !any_counts_as_nonempty(nodes, count),
    decreases nodes, count,
{
    if count > 0 {
        lemma_zero_byte_tree_holds_nothing(nodes[count - 1]);
        lemma_zero_byte_nodes_hold_nothing(nodes, (count - 1) as nat);
    }
}

/// Scans the source tree for a file that is not empty. A tree of empty
/// directories and zero-byte files has nothing worth backing up, and
/// neither has a source that is no directory at all.
pub fn has_nonempty_files(dir: &SourceNode) -> (found: bool)
    ensures
        found == holds_nonempty_file(*dir),
    decreases *dir,
{
    match dir {
        SourceNode::File { .. } => false,
        SourceNode::Directory { children } => {
            let mut i: usize = 0;
            while i < children.len()
                invariant
                    i <= children.len(),
                    *dir == (SourceNode::Directory { children: *children }),
                    decreases_to!(*dir => *children),
                    !any_counts_as_nonempty(children@, i as nat),
                decreases children.len() - i,
            {
                let child = &children[i];
                assert(decreases_to!(*children => children[i as int]));
                let found = match child {
                    SourceNode::File { size } => *size > 0,
                    SourceNode::Directory { .. } => has_nonempty_files(child),
                };
                assert(found == counts_as_nonempty(*child));
                if found {
                    proof {
                        lemma_any_counts_as_nonempty(children@, children@.len());
                        assert(counts_as_nonempty(children@[i as int]));
                    }
                    return true;
                }
                assert(!any_counts_as_nonempty(children@, (i + 1) as nat));
                i += 1;
            }
            false
        },
    }
}

/// The text that `chrono` gives for the UTC time `unix_secs` seconds after
/// the Unix epoch, formatted by `pattern`; `None` where that time lies
/// outside the calendar `chrono` covers.
pub uninterp spec fn utc_timestamp_text(unix_secs: i64, pattern: Seq<char>) -> Option<Seq<char>>;

/// Calls `chrono::DateTime::from_timestamp` and formats the result with
/// `chrono::DateTime::format`. Trusted: the text is a function of the two
/// arguments alone, and there is none exactly where `chrono` has no such
/// time. `chrono` fails on patterns it cannot parse, so only the pattern
/// of backup names is admitted.
#[verifier::external_body]
fn format_utc_timestamp(unix_secs: i64, pattern: &str) -> (text: Option<String>)
    requires
        pattern@ == TIMESTAMP_PATTERN@,
    ensures
        optional_text(text) == utc_timestamp_text(unix_secs, pattern@),
{
    chrono::DateTime::from_timestamp(unix_secs, 0).map(|moment| moment.format(pattern).to_string())
}

/// The name of a backup: when it was made, an underscore, and what it is a
/// backup of.
pub open spec fn spec_backup_filename(timestamp: Seq<char>, backup_name: Seq<char>) -> Seq<char> {
    timestamp + "_"@ + backup_name
}

/// Names a backup from the text of its creation time and the configured
/// backup name.
pub fn backup_filename(timestamp: &str, backup_name: &str) -> (filename: String)
    ensures
        filename@ == spec_backup_filename(timestamp@, backup_name@),
{
    let mut filename = String::from_str(timestamp);
    filename.append("_");
    filename.append(backup_name);
    filename
}

/// Names the backup made `unix_secs` seconds after the Unix epoch; `None`
/// where the calendar has no such time.
pub fn timestamped_filename(unix_secs: i64, backup_name: &str) -> (filename: Option<String>)
    ensures
        optional_text(filename) == match utc_timestamp_text(unix_secs, TIMESTAMP_PATTERN@) {
            Some(timestamp) => Some(spec_backup_filename(timestamp, backup_name@)),
            None => None,
        },
{
    match format_utc_timestamp(unix_secs, TIMESTAMP_PATTERN) {
        Some(timestamp) => Some(backup_filename(timestamp.as_str(), backup_name)),
        None => None,
    }
}

/// The configured backup flavour, ready to produce its job.
pub enum FileBackupClient<'a> {
    Compressed(TarBackupClient<'a>),
    Incremental(RsyncBackupClient<'a>),
}

impl<'a> BackupClient for FileBackupClient<'a> {
    open spec fn job(&self, base_filename: Seq<char>) -> BackupJobView {
        match self {
            FileBackupClient::Compressed(client) => client.job(base_filename),
            FileBackupClient::Incremental(client) => client.job(base_filename),
        }
    }

    fn run_backup(&self, base_filename: &str) -> (job: BackupJob) {
        match self {
            FileBackupClient::Compressed(client) => client.run_backup(base_filename),
            FileBackupClient::Incremental(client) => client.run_backup(base_filename),
        }
    }
}

/// The client that `get_backup_client` builds, or the setting it misses.
pub open spec fn spec_backup_client<'a>(
    app_config: &'a AppConfig,
    previous_backup: Option<Seq<char>>,
    tar_config: Option<TarConfig>,
    rsync_config: Option<RsyncConfig>,
    client: Result<FileBackupClient<'a>, BackupError>,
) -> bool {
    match app_config.effective_backup_type() {
        BackupType::Compressed => match tar_config {
            Some(config) => client matches Ok(FileBackupClient::Compressed(tar))
                && tar.app_config == app_config && tar.tar_config == config,
            None => client == Err::<FileBackupClient<'a>, _>(
                BackupError::Configuration(ConfigurationError::MissingCompressedSettings),
            ),
        },
        BackupType::Incremental => match rsync_config {
            Some(config) => client matches Ok(FileBackupClient::Incremental(rsync))
                && rsync.app_config == app_config && rsync.rsync_config == config && optional_text(
                rsync.previous_backup,
            ) == previous_backup,
            None => client == Err::<FileBackupClient<'a>, _>(
                BackupError::Configuration(ConfigurationError::MissingIncrementalSettings),
            ),
        },
    }
}

/// Selects the backup flavour that `app_config` asks for, incremental by
/// default, and equips it with its settings. Only the chosen flavour's
/// settings are needed; the incremental flavour links against
/// `previous_backup`.
pub fn get_backup_client<'a>(
    app_config: &'a AppConfig,
    previous_backup: Option<&str>,
    tar_config: Option<TarConfig>,
    rsync_config: Option<RsyncConfig>,
) -> (client: Result<FileBackupClient<'a>, BackupError>)
    ensures
        spec_backup_client(
            app_config,
            match previous_backup {
                Some(path) => Some(path@),
                None => None,
            },
            tar_config,
            rsync_config,
            client,
        ),
{
    let compressed = match app_config.backup_type {
        Some(BackupType::Compressed) => true,
        _ => false,
    };
    if compressed {
        match tar_config {
            Some(config) => Ok(FileBackupClient::Compressed(TarBackupClient::new(app_config, config))),
            None => Err(BackupError::Configuration(ConfigurationError::MissingCompressedSettings)),
        }
    } else {
        match rsync_config {
            Some(config) => Ok(
                FileBackupClient::Incremental(
                    RsyncBackupClient::new(app_config, config, previous_backup),
                ),
            ),
            None => Err(BackupError::Configuration(ConfigurationError::MissingIncrementalSettings)),
        }
    }
}

/// What one file backup run consists of.
pub enum FileBackupPlan {
    /// The source holds no data: nothing is run and nothing is deleted.
    Skip,
    /// Run `job` to create the backup `filename`; once it has succeeded,
    /// delete `evictions`, each on its own.
    Run { filename: String, job: BackupJob, evictions: Vec<DirEntryPriority> },
}

/// The mathematical content of a `FileBackupPlan`.
pub enum FileBackupPlanView {
    Skip,
    Run { filename: Seq<char>, job: BackupJobView, evictions: Seq<BackupEntry> },
}

impl View for FileBackupPlan {
    type V = FileBackupPlanView;

    open spec fn view(&self) -> FileBackupPlanView {
        match self {
            FileBackupPlan::Skip => FileBackupPlanView::Skip,
            FileBackupPlan::Run { filename, job, evictions } => FileBackupPlanView::Run {
                filename: filename@,
                job: job@,
                evictions: entry_views(evictions@),
            },
        }
    }
}

/// The path of the most recent of `entries`, if there is any: the head of
/// the listing by recency.
pub open spec fn latest_path(entries: Seq<BackupEntry>) -> Option<Seq<char>> {
    if entries.len() == 0 {
        None
    } else {
        Some(newest_first(entries)[0].path)
    }
}

/// The job of the configured flavour for the backup `filename`, or the
/// setting it misses.
pub open spec fn spec_backup_job(
    app_config: &AppConfig,
    previous_backup: Option<Seq<char>>,
    tar_config: Option<TarConfig>,
    rsync_config: Option<RsyncConfig>,
    filename: Seq<char>,
) -> Result<BackupJobView, BackupError> {
    match app_config.effective_backup_type() {
        BackupType::Compressed => match tar_config {
            Some(config) => Ok(tar_job(app_config, config, filename)),
            None => Err(BackupError::Configuration(ConfigurationError::MissingCompressedSettings)),
        },
        BackupType::Incremental => match rsync_config {
            Some(config) => Ok(rsync_job(app_config, config, previous_backup, filename)),
            None => Err(BackupError::Configuration(ConfigurationError::MissingIncrementalSettings)),
        },
    }
}

/// The plan for a file backup named `filename`.
pub open spec fn spec_file_backup_plan(
    app_config: &AppConfig,
    source: SourceNode,
    previous_backups: Seq<BackupEntry>,
    tar_config: Option<TarConfig>,
    rsync_config: Option<RsyncConfig>,
    filename: Seq<char>,
) -> Result<FileBackupPlanView, BackupError> {
    if !holds_nonempty_file(source) {
        Ok(FileBackupPlanView::Skip)
    } else {
        match spec_backup_job(
            app_config,
            latest_path(previous_backups),
            tar_config,
            rsync_config,
            filename,
        ) {
            Ok(job) => Ok(
                FileBackupPlanView::Run {
                    filename,
                    job,
                    evictions: evictions(previous_backups, app_config.max_number_of_backups as nat),
                },
            ),
            Err(error) => Err(error),
        }
    }
}

/// The view of a planning result.
pub open spec fn plan_view(plan: Result<FileBackupPlan, BackupError>) -> Result<
    FileBackupPlanView,
    BackupError,
> {
    match plan {
        Ok(p) => Ok(p@),
        Err(error) => Err(error),
    }
}

/// Plans the file backup that is to be called `filename`. With no
/// non-empty file anywhere in `source` the plan is to do nothing. Otherwise
/// the configured flavour produces the job, linking against the most
/// recent of `previous_backups`, and the retention policy names the
/// backups to delete once the job has succeeded.
pub fn plan_file_backup(
    app_config: &AppConfig,
    source: &SourceNode,
    previous_backups: &Vec<DirEntryPriority>,
    tar_config: Option<TarConfig>,
    rsync_config: Option<RsyncConfig>,
    filename: String,
) -> (plan: Result<FileBackupPlan, BackupError>)
    ensures
        plan_view(plan) == spec_file_backup_plan(
            app_config,
            *source,
            entry_views(previous_backups@),
            tar_config,
            rsync_config,
            filename@,
        ),
{
    if !has_nonempty_files(source) {
        return Ok(FileBackupPlan::Skip);
    }
    let latest = match latest_backup(previous_backups) {
        Some(entry) => Some(entry.path.as_str()),
        None => None,
    };
    let client = match get_backup_client(app_config, latest, tar_config, rsync_config) {
        Ok(client) => client,
        Err(error) => {
            return Err(error);
        },
    };
    let job = client.run_backup(filename.as_str());
    let evictions = decide_evictions(previous_backups, app_config.max_number_of_backups);
    Ok(FileBackupPlan::Run { filename, job, evictions })
}

/// Plans the file backup made `now_unix_secs` seconds after the Unix
/// epoch: `plan_file_backup` for the name that this time and the
/// configured backup name give. A source without data is skipped before
/// the time is even looked at.
pub fn backup_files(
    app_config: &AppConfig,
    source: &SourceNode,
    previous_backups: &Vec<DirEntryPriority>,
    tar_config: Option<TarConfig>,
    rsync_config: Option<RsyncConfig>,
    now_unix_secs: i64,
) -> (plan: Result<FileBackupPlan, BackupError>)
    ensures
        !holds_nonempty_file(*source) ==> plan_view(plan) == Ok::<_, BackupError>(
            FileBackupPlanView::Skip,
        ),
        holds_nonempty_file(*source) ==> plan_view(plan) == match utc_timestamp_text(
            now_unix_secs,
            TIMESTAMP_PATTERN@,
        ) {
            Some(timestamp) => spec_file_backup_plan(
                app_config,
                *source,
                entry_views(previous_backups@),
                tar_config,
                rsync_config,
                spec_backup_filename(timestamp, app_config.backup_name@),
            ),
            None => Err(BackupError::Configuration(ConfigurationError::TimestampOutOfRange)),
        },
{
    if !has_nonempty_files(source) {
        return Ok(FileBackupPlan::Skip);
    }
    match timestamped_filename(now_unix_secs, app_config.backup_name.as_str()) {
        Some(filename) => plan_file_backup(
            app_config,
            source,
            previous_backups,
            tar_config,
            rsync_config,
            filename,
        ),
        None => Err(BackupError::Configuration(ConfigurationError::TimestampOutOfRange)),
    }
}

} // verus!

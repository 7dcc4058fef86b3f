use backup_tools::app_config::AppConfig;
use backup_tools::common::backup_type::BackupType;
use backup_tools::common::command::StdioMode;
use backup_tools::common::error::{BackupError, ConfigurationError};
use backup_tools::file::backup::{
    backup_filename, backup_files, get_backup_client, has_nonempty_files, plan_file_backup,
    timestamped_filename, FileBackupClient, FileBackupPlan, SourceNode, TIMESTAMP_PATTERN,
};
use backup_tools::file::backup_client::BackupClient;
use backup_tools::file::config::{RsyncConfig, TarConfig};
use backup_tools::file::dir_entry_priority::DirEntryPriority;
use backup_tools::file::rsync::make_incremental_backup;
use backup_tools::file::rsync::rsync_backup_client::RsyncBackupClient;
use backup_tools::file::tar::make_tar_gz;
use backup_tools::file::tar::tar_backup_client::TarBackupClient;

fn config(backup_type: Option<BackupType>, cap: u64) -> AppConfig {
    AppConfig {
        backup_name: "site".to_string(),
        source_path: "/data/source".to_string(),
        destination_path: "/backups".to_string(),
        max_number_of_backups: cap,
        scale_deployment_enabled: None,
        postgres_backup_enabled: None,
        mongo_backup_enabled: None,
        backup_type,
    }
}

fn plain_rsync() -> RsyncConfig {
    RsyncConfig {
        timeout: None,
        exclude_file_path: None,
        destination_owner: None,
        destination_group: None,
        whole_file: None,
    }
}

fn plain_tar() -> TarConfig {
    TarConfig { timeout: None, exclude_file_path: None }
}

fn file(size: u64) -> SourceNode {
    SourceNode::File { size }
}

fn dir(children: Vec<SourceNode>) -> SourceNode {
    SourceNode::Directory { children }
}

fn strings(list: &[&str]) -> Vec<String> {
    list.iter().map(|s| s.to_string()).collect()
}

fn entry(name: &str, created: i128) -> DirEntryPriority {
    DirEntryPriority::new(name.to_string(), created)
}

#[test]
fn default_app_config_is_empty() {
    let config = AppConfig::default();
    assert_eq!(config.backup_name, "");
    assert_eq!(config.source_path, "");
    assert_eq!(config.destination_path, "");
    assert_eq!(config.max_number_of_backups, 0);
    assert_eq!(config.scale_deployment_enabled, None);
    assert_eq!(config.postgres_backup_enabled, None);
    assert_eq!(config.mongo_backup_enabled, None);
    assert_eq!(config.backup_type, None);
}

#[test]
fn tree_of_zero_byte_files_has_nothing_to_back_up() {
    let tree = dir(vec![file(0), dir(vec![file(0), dir(vec![])]), file(0)]);
    assert!(!has_nonempty_files(&tree));
    assert!(!has_nonempty_files(&dir(vec![])));
}

#[test]
fn one_byte_anywhere_is_enough() {
    assert!(has_nonempty_files(&dir(vec![file(1)])));
    assert!(has_nonempty_files(&dir(vec![file(0), dir(vec![dir(vec![file(0), file(7)])])])));
    assert!(has_nonempty_files(&dir(vec![dir(vec![]), file(0), file(u64::MAX)])));
}

#[test]
fn source_that_is_a_file_holds_nothing() {
    assert!(!has_nonempty_files(&file(0)));
    assert!(!has_nonempty_files(&file(100)));
}

#[test]
fn backup_name_joins_timestamp_and_name() {
    assert_eq!(backup_filename("2001-07-08_003460", "site"), "2001-07-08_003460_site");
    assert_eq!(backup_filename("", ""), "_");
}

#[test]
fn timestamp_is_date_and_time_of_day_in_utc() {
    assert_eq!(TIMESTAMP_PATTERN, "%F_%H%M%S");
    assert_eq!(timestamped_filename(0, "site"), Some("1970-01-01_000000_site".to_string()));
    assert_eq!(
        timestamped_filename(994_552_496, "site"),
        Some("2001-07-08_003456_site".to_string())
    );
    assert_eq!(timestamped_filename(-1, "x"), Some("1969-12-31_235959_x".to_string()));
}

#[test]
fn time_outside_the_calendar_gives_no_name() {
    assert_eq!(timestamped_filename(i64::MAX, "site"), None);
    assert_eq!(timestamped_filename(i64::MIN, "site"), None);
}

#[test]
fn tar_command_archives_the_source() {
    let app_config = config(Some(BackupType::Compressed), 0);
    let client = TarBackupClient::new(&app_config, plain_tar());
    let command = client.execute_tar("/backups/x.tar.gz");
    assert_eq!(command.program, "tar");
    assert_eq!(command.args, strings(&["-zcvf", "/backups/x.tar.gz", "-C", "/data/source", "."]));
    assert_eq!(command.stdin, StdioMode::Null);
    assert_eq!(command.stdout, StdioMode::Piped);
    assert_eq!(command.stderr, StdioMode::Piped);
    assert!(command.envs.is_empty());
    assert_eq!(command.current_dir, None);
}

#[test]
fn tar_command_honours_the_exclude_file() {
    let app_config = config(Some(BackupType::Compressed), 0);
    let tar_config = TarConfig { timeout: Some(5), exclude_file_path: Some("/etc/ex".to_string()) };
    let client = TarBackupClient::new(&app_config, tar_config);
    let command = client.execute_tar("out");
    assert_eq!(
        command.args,
        strings(&["-zcvf", "out", "--exclude-from", "/etc/ex", "-C", "/data/source", "."])
    );
}

#[test]
fn tar_job_names_the_archive_and_defaults_to_sixty_minutes() {
    let app_config = config(Some(BackupType::Compressed), 0);
    let job = TarBackupClient::new(&app_config, plain_tar()).run_backup("2024-01-01_000000_site");
    assert_eq!(job.timeout, Some(3600));
    assert!(!job.stderr_as_stdout);
    assert_eq!(job.command.args[1], "/backups/2024-01-01_000000_site.tar.gz");

    let configured = TarConfig { timeout: Some(42), exclude_file_path: None };
    let job = make_tar_gz(&app_config, configured, "n");
    assert_eq!(job.timeout, Some(42));
    assert_eq!(job.command.args[1], "/backups/n.tar.gz");
}

#[test]
fn archive_extension_replaces_what_follows_the_last_dot() {
    let app_config = config(Some(BackupType::Compressed), 0);
    let job = TarBackupClient::new(&app_config, plain_tar()).run_backup("stamp_my.site");
    assert_eq!(job.command.args[1], "/backups/stamp_my.tar.gz");
}

#[test]
fn absolute_backup_name_replaces_the_destination() {
    let app_config = config(None, 0);
    let job = make_incremental_backup(&app_config, plain_rsync(), "/elsewhere/b", None);
    assert_eq!(job.command.args.last().unwrap(), "/elsewhere/b");
}

#[test]
fn rsync_command_in_its_plainest_form() {
    let app_config = config(None, 0);
    let client = RsyncBackupClient::new(&app_config, plain_rsync(), None);
    let command = client.execute_rsync("/backups/b1");
    assert_eq!(command.program, "rsync");
    assert_eq!(command.args, strings(&["-azP", "--delete", "/data/source/", "/backups/b1"]));
    assert_eq!(command.stdin, StdioMode::Null);
    assert_eq!(command.stdout, StdioMode::Piped);
    assert_eq!(command.stderr, StdioMode::Piped);
}

#[test]
fn rsync_source_gets_exactly_one_trailing_separator() {
    let mut app_config = config(None, 0);
    app_config.source_path = "/data/source/".to_string();
    let client = RsyncBackupClient::new(&app_config, plain_rsync(), None);
    let command = client.execute_rsync("d");
    assert_eq!(command.args, strings(&["-azP", "--delete", "/data/source/", "d"]));
}

#[test]
fn rsync_command_with_every_option() {
    let app_config = config(None, 0);
    let rsync_config = RsyncConfig {
        timeout: Some(30),
        exclude_file_path: Some("/etc/excludes".to_string()),
        destination_owner: Some("backup".to_string()),
        destination_group: Some("staff".to_string()),
        whole_file: Some(true),
    };
    let client = RsyncBackupClient::new(&app_config, rsync_config, Some("/backups/prev"));
    assert_eq!(client.previous_backup, Some("/backups/prev".to_string()));
    let command = client.execute_rsync("/backups/next");
    assert_eq!(
        command.args,
        strings(&[
            "-azPog",
            "--delete",
            "--chown",
            "backup:staff",
            "--super",
            "--whole-file",
            "--exclude-from",
            "/etc/excludes",
            "--link-dest",
            "/backups/prev",
            "/data/source/",
            "/backups/next",
        ])
    );
}

#[test]
fn rsync_ownership_with_owner_or_group_alone() {
    let app_config = config(None, 0);
    let mut owner_only = plain_rsync();
    owner_only.destination_owner = Some("backup".to_string());
    owner_only.whole_file = Some(false);
    let command = RsyncBackupClient::new(&app_config, owner_only, None).execute_rsync("d");
    assert_eq!(
        command.args,
        strings(&["-azPo", "--delete", "--chown", "backup:", "--super", "/data/source/", "d"])
    );

    let mut group_only = plain_rsync();
    group_only.destination_group = Some("staff".to_string());
    let command = RsyncBackupClient::new(&app_config, group_only, None).execute_rsync("d");
    assert_eq!(
        command.args,
        strings(&["-azPg", "--delete", "--chown", ":staff", "--super", "/data/source/", "d"])
    );
}

#[test]
fn rsync_job_joins_destination_and_defaults_to_five_minutes() {
    let app_config = config(None, 0);
    let job = RsyncBackupClient::new(&app_config, plain_rsync(), None).run_backup("stamp_site");
    assert_eq!(job.timeout, Some(300));
    assert!(!job.stderr_as_stdout);
    assert_eq!(job.command.args.last().unwrap(), "/backups/stamp_site");

    let mut configured = plain_rsync();
    configured.timeout = Some(7);
    let job = make_incremental_backup(&app_config, configured, "n", Some("/backups/old"));
    assert_eq!(job.timeout, Some(7));
    assert_eq!(
        job.command.args,
        strings(&["-azP", "--delete", "--link-dest", "/backups/old", "/data/source/", "/backups/n"])
    );
}

#[test]
fn backup_flavour_defaults_to_incremental() {
    let app_config = config(None, 0);
    let client =
        get_backup_client(&app_config, Some("/backups/p"), Some(plain_tar()), Some(plain_rsync()));
    match client {
        Ok(FileBackupClient::Incremental(rsync)) => {
            assert_eq!(rsync.previous_backup, Some("/backups/p".to_string()));
        }
        _ => panic!("expected the incremental flavour"),
    }
    let explicit = config(Some(BackupType::Incremental), 0);
    assert!(matches!(
        get_backup_client(&explicit, None, None, Some(plain_rsync())),
        Ok(FileBackupClient::Incremental(_))
    ));
}

#[test]
fn compressed_flavour_is_chosen_when_configured() {
    let app_config = config(Some(BackupType::Compressed), 0);
    let client = get_backup_client(&app_config, Some("/backups/p"), Some(plain_tar()), None);
    match client {
        Ok(chosen) => {
            let job = chosen.run_backup("n");
            assert_eq!(job.command.program, "tar");
            assert_eq!(job.timeout, Some(3600));
        }
        Err(_) => panic!("expected the compressed flavour"),
    }
}

#[test]
fn chosen_flavour_without_settings_is_a_configuration_error() {
    let compressed = config(Some(BackupType::Compressed), 0);
    assert!(matches!(
        get_backup_client(&compressed, None, None, Some(plain_rsync())),
        Err(BackupError::Configuration(ConfigurationError::MissingCompressedSettings))
    ));
    let incremental = config(None, 0);
    assert!(matches!(
        get_backup_client(&incremental, None, Some(plain_tar()), None),
        Err(BackupError::Configuration(ConfigurationError::MissingIncrementalSettings))
    ));
}

#[test]
fn source_of_zero_byte_files_is_skipped_without_any_command() {
    let app_config = config(None, 2);
    let source = dir(vec![file(0), dir(vec![file(0)])]);
    let existing = vec![entry("/backups/a", 1), entry("/backups/b", 2)];
    let plan = backup_files(&app_config, &source, &existing, None, Some(plain_rsync()), 0);
    assert!(matches!(plan, Ok(FileBackupPlan::Skip)));
    // Not even missing settings or an impossible time matter then.
    let plan = backup_files(&app_config, &source, &existing, None, None, i64::MAX);
    assert!(matches!(plan, Ok(FileBackupPlan::Skip)));
    let plan = plan_file_backup(&app_config, &source, &existing, None, None, "n".to_string());
    assert!(matches!(plan, Ok(FileBackupPlan::Skip)));
}

#[test]
fn incremental_plan_links_against_the_latest_and_evicts_the_oldest() {
    let app_config = config(None, 3);
    let source = dir(vec![file(10)]);
    let existing =
        vec![entry("/backups/b", 20), entry("/backups/c", 30), entry("/backups/a", 10)];
    let plan = backup_files(&app_config, &source, &existing, None, Some(plain_rsync()), 0);
    match plan {
        Ok(FileBackupPlan::Run { filename, job, evictions }) => {
            assert_eq!(filename, "1970-01-01_000000_site");
            assert_eq!(
                job.command.args,
                strings(&[
                    "-azP",
                    "--delete",
                    "--link-dest",
                    "/backups/c",
                    "/data/source/",
                    "/backups/1970-01-01_000000_site",
                ])
            );
            assert_eq!(job.timeout, Some(300));
            let evicted: Vec<String> = evictions.iter().map(|e| e.path.clone()).collect();
            assert_eq!(evicted, strings(&["/backups/a"]));
        }
        _ => panic!("expected a plan to run"),
    }
}

#[test]
fn compressed_plan_archives_and_keeps_everything_without_cap() {
    let app_config = config(Some(BackupType::Compressed), 0);
    let source = dir(vec![dir(vec![file(1)])]);
    let existing = vec![entry("/backups/a", 10), entry("/backups/b", 20)];
    let plan = backup_files(&app_config, &source, &existing, Some(plain_tar()), None, 86_400);
    match plan {
        Ok(FileBackupPlan::Run { filename, job, evictions }) => {
            assert_eq!(filename, "1970-01-02_000000_site");
            assert_eq!(job.command.program, "tar");
            assert_eq!(job.command.args[1], "/backups/1970-01-02_000000_site.tar.gz");
            assert!(evictions.is_empty());
        }
        _ => panic!("expected a plan to run"),
    }
}

#[test]
fn first_backup_has_nothing_to_link_against() {
    let app_config = config(None, 5);
    let source = dir(vec![file(1)]);
    let existing: Vec<DirEntryPriority> = Vec::new();
    let plan = plan_file_backup(
        &app_config,
        &source,
        &existing,
        None,
        Some(plain_rsync()),
        "first".to_string(),
    );
    match plan {
        Ok(FileBackupPlan::Run { filename, job, evictions }) => {
            assert_eq!(filename, "first");
            assert_eq!(
                job.command.args,
                strings(&["-azP", "--delete", "/data/source/", "/backups/first"])
            );
            assert!(evictions.is_empty());
        }
        _ => panic!("expected a plan to run"),
    }
}

#[test]
fn plan_fails_on_missing_settings_and_impossible_time() {
    let app_config = config(None, 5);
    let source = dir(vec![file(1)]);
    let existing: Vec<DirEntryPriority> = Vec::new();
    assert!(matches!(
        backup_files(&app_config, &source, &existing, Some(plain_tar()), None, 0),
        Err(BackupError::Configuration(ConfigurationError::MissingIncrementalSettings))
    ));
    assert!(matches!(
        backup_files(&app_config, &source, &existing, None, Some(plain_rsync()), i64::MAX),
        Err(BackupError::Configuration(ConfigurationError::TimestampOutOfRange))
    ));
}

//! Builds the PostgreSQL dump.

use crate::common::command::{BackupJob, BackupJobView, CommandSpec, CommandView};
use crate::common::error::ConfigurationError;
use crate::common::paths::{joined_path, join_path};
use crate::common::process::create_command;
use crate::common::text::{decimal, decimal_text};
use crate::db::backup::{DatabaseBackup, DatabaseBackupView};
use crate::db::pgsql::config::{
    config_view, spec_config_from_url, PgDumpArgs, PostgresConfig, PostgresConfigView,
    DEFAULT_PGSQL_PORT,
};
use vstd::prelude::*;
use vstd::string::StringExecFns;

verus! {

/// The port to connect to: the configured one or the default.
pub open spec fn effective_port(port: Option<u16>) -> u16 {
    match port {
        Some(p) => p,
        None => DEFAULT_PGSQL_PORT,
    }
}

/// The arguments of the dump: where and as whom to connect, which
/// database if one is named, never to ask for a password, to give up on
/// locks after ten seconds, and to write in directory format to
/// `save_path`.
pub open spec fn pg_dump_arguments(config: PostgresConfigView, save_path: Seq<char>) -> Seq<
    Seq<char>,
> {
    seq![
        "-h"@,
        config.host,
        "-p"@,
        decimal_text(effective_port(config.port) as nat),
        "-U"@,
        config.username,
    ] + (match config.database_name {
        Some(database) => seq!["-d"@, database],
        None => Seq::empty(),
    }) + seq!["-w"@, "--lock-wait-timeout=10"@, "-F"@, "d"@, "-f"@, save_path]
}

/// The dump command: the password travels in the environment, never on
/// the command line.
pub open spec fn pg_dump_command(config: PostgresConfigView, save_path: Seq<char>) -> CommandView {
    CommandView::captured("pg_dump"@).with_env("PGPASSWORD"@, config.password).with_args(
        pg_dump_arguments(config, save_path),
    )
}

/// The directory of a database's dump below `base_backup_path`.
pub open spec fn postgres_backup_path(
    base_backup_path: Seq<char>,
    database_name: Option<Seq<char>>,
) -> Seq<char> {
    joined_path(
        base_backup_path,
        "postgres/"@ + (match database_name {
            Some(name) => name,
            None => "db"@,
        }),
    )
}

/// The dump of the configured database: the directory to create and the
/// job that fills it, under the supervisor's default timeout.
pub open spec fn spec_backup_postgres(base_backup_path: Seq<char>, config: PostgresConfigView)
    -> DatabaseBackupView {
    let directory = postgres_backup_path(base_backup_path, config.database_name);
    DatabaseBackupView {
        directory,
        job: BackupJobView {
            command: pg_dump_command(config, directory),
            timeout: None,
            stderr_as_stdout: false,
        },
    }
}

/// The settings to use: those of the connection URL where one is set,
/// else the individually configured ones.
pub fn get_postgres_config(url: Option<&str>, settings: Option<PostgresConfig>) -> (config: Result<
    PostgresConfig,
    ConfigurationError,
>)
    ensures
        config_view(config) == match url {
            Some(text) => spec_config_from_url(text@),
            None => match settings {
                Some(configured) => Ok(configured@),
                None => Err(ConfigurationError::MissingDatabaseSettings),
            },
        },
{
    match url {
        Some(text) => PostgresConfig::from_url(text),
        None => match settings {
            Some(configured) => Ok(configured),
            None => Err(ConfigurationError::MissingDatabaseSettings),
        },
    }
}

/// Builds the dump command that writes to `save_path`.
pub fn execute_pg_dump(config: &PostgresConfig, save_path: &str) -> (command: CommandSpec)
    ensures
        command@ == pg_dump_command(config@, save_path@),
{
    let port: u16 = match config.port {
        Some(p) => p,
        None => DEFAULT_PGSQL_PORT,
    };
    let port_text = decimal(port as u64);
    let mut command = create_command("pg_dump");
    command.env("PGPASSWORD", config.password.as_str());
    command.arg("-h");
    command.arg(config.host.as_str());
    command.arg("-p");
    command.arg(port_text.as_str());
    command.arg("-U");
    command.arg(config.username.as_str());
    if let Some(database) = &config.database_name {
        command.arg("-d");
        command.arg(database.as_str());
    }
    command.arg("-w");
    command.arg("--lock-wait-timeout=10");
    command.arg("-F");
    command.arg("d");
    command.arg("-f");
    command.arg(save_path);
    assert(command@.args =~= pg_dump_arguments(config@, save_path@));
    command
}

/// Builds the job that dumps the database of `args`.
pub fn start_pg_backup(args: &PgDumpArgs) -> (job: BackupJob)
    ensures
        job@ == (BackupJobView {
            command: pg_dump_command(args.config@, args.backup_path@),
            timeout: None,
            stderr_as_stdout: false,
        }),
{
    let command = execute_pg_dump(&args.config, args.backup_path.as_str());
    BackupJob { command, timeout: None, stderr_as_stdout: false }
}

/// Plans the PostgreSQL dump below `base_backup_path`: the directory
/// `postgres/<database>` to create, `db` standing in for an unnamed
/// database, and the job that fills it.
pub fn backup_postgres(base_backup_path: &str, config: PostgresConfig) -> (backup: DatabaseBackup)
    ensures
        backup@ == spec_backup_postgres(base_backup_path@, config@),
{
    let mut relative = String::from_str("postgres/");
    match &config.database_name {
        Some(name) => relative.append(name.as_str()),
        None => relative.append("db"),
    }
    let backup_path = join_path(base_backup_path, relative.as_str());
    let directory = backup_path.clone();
    let args = PgDumpArgs { config, backup_path };
    let job = start_pg_backup(&args);
    DatabaseBackup { directory, job }
}

} // verus!

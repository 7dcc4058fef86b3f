//! Builds the MongoDB dump.

use crate::common::command::{
    optional_text, BackupJob, BackupJobView, CommandSpec, CommandView, StdioMode,
};
use crate::common::error::ConfigurationError;
use crate::common::paths::{joined_path, join_path};
use crate::common::process::create_command;
use crate::common::text::{decimal, decimal_text};
use crate::common::url::{parse_url, parsed_url};
use crate::db::backup::{DatabaseBackup, DatabaseBackupView};
use crate::db::mongo::config::{MongoConfig, DEFAULT_PORT};
use vstd::prelude::*;
use vstd::string::StringExecFns;

verus! {

/// The address of the server as it is written down: `mongodb://host:port`,
/// with the default port where none is configured.
pub open spec fn connection_text(host: Seq<char>, port: Option<u16>) -> Seq<char> {
    "mongodb://"@ + host + ":"@ + decimal_text(
        (match port {
            Some(p) => p,
            None => DEFAULT_PORT,
        }) as nat,
    )
}

/// An optional setting as an option and its value.
pub open spec fn optional_argument(option: Seq<char>, value: Option<Seq<char>>) -> Seq<Seq<char>> {
    match value {
        Some(v) => seq![option, v],
        None => Seq::empty(),
    }
}

/// The arguments of the dump: the options file and user, a compressed
/// archive named `mongo.gz`, then what narrows the dump down, and last
/// the address of the server.
pub open spec fn mongodump_arguments(config: MongoConfig, connection_string: Seq<char>) -> Seq<
    Seq<char>,
> {
    seq![
        "--config"@,
        config.configuration_file@,
        "--username"@,
        config.username@,
        "--gzip"@,
        "--archive=mongo.gz"@,
    ] + (match config.database_name {
        Some(database) => seq!["--db"@, database@, "--dumpDbUsersAndRoles"@],
        None => Seq::empty(),
    }) + optional_argument(
        "--authenticationDatabase"@,
        optional_text(config.authentication_database_name),
    ) + optional_argument(
        "--authenticationMechanism"@,
        optional_text(config.authentication_mechanism),
    ) + optional_argument("--collection"@, optional_text(config.collection)) + optional_argument(
        "--queryFile"@,
        optional_text(config.query_file),
    ) + seq![connection_string]
}

/// The dump command, run from `save_path`. The tool reports its progress
/// on the error stream, which is therefore the one captured; its output
/// stream is closed, the data going to the archive.
pub open spec fn mongodump_command(
    config: MongoConfig,
    save_path: Seq<char>,
    connection_string: Seq<char>,
) -> CommandView {
    CommandView::captured("mongodump"@).with_stdout(StdioMode::Null).with_current_dir(
        save_path,
    ).with_args(mongodump_arguments(config, connection_string))
}

/// The dump command for `config`, or `InvalidUrl` where host and port do
/// not make a URL.
pub open spec fn spec_execute_mongodump(config: MongoConfig, save_path: Seq<char>) -> Result<
    CommandView,
    ConfigurationError,
> {
    match parsed_url(connection_text(config.host@, config.port)) {
        Some(parts) => Ok(mongodump_command(config, save_path, parts.text)),
        None => Err(ConfigurationError::InvalidUrl),
    }
}

/// The directory of a database's dump below `base_backup_path`.
pub open spec fn mongo_backup_path(base_backup_path: Seq<char>, database_name: Option<Seq<char>>)
    -> Seq<char> {
    joined_path(
        base_backup_path,
        "mongo/"@ + (match database_name {
            Some(name) => name,
            None => "mongodb"@,
        }),
    )
}

/// The dump of the configured database: the directory to create and the
/// job that fills it, its error stream logged as ordinary output, under
/// the supervisor's default timeout.
pub open spec fn spec_backup_mongo(base_backup_path: Seq<char>, config: MongoConfig) -> Result<
    DatabaseBackupView,
    ConfigurationError,
> {
    let directory = mongo_backup_path(base_backup_path, optional_text(config.database_name));
    match spec_execute_mongodump(config, directory) {
        Ok(command) => Ok(
            DatabaseBackupView {
                directory,
                job: BackupJobView { command, timeout: None, stderr_as_stdout: true },
            },
        ),
        Err(error) => Err(error),
    }
}

/// The settings to use, if any were supplied.
pub fn get_mongo_config(settings: Option<MongoConfig>) -> (config: Result<
    MongoConfig,
    ConfigurationError,
>)
    ensures
        config == match settings {
            Some(configured) => Ok::<_, ConfigurationError>(configured),
            None => Err(ConfigurationError::MissingDatabaseSettings),
        },
{
    match settings {
        Some(configured) => Ok(configured),
        None => Err(ConfigurationError::MissingDatabaseSettings),
    }
}

/// Builds the dump command that writes its archive into `save_path`.
pub fn execute_mongodump(config: &MongoConfig, save_path: &str) -> (command: Result<
    CommandSpec,
    ConfigurationError,
>)
    ensures
        match spec_execute_mongodump(*config, save_path@) {
            Ok(expected) => command matches Ok(built) && built@ == expected,
            Err(error) => command == Err::<CommandSpec, _>(error),
        },
{
    let port: u16 = match config.port {
        Some(p) => p,
        None => DEFAULT_PORT,
    };
    let mut address = String::from_str("mongodb://");
    address.append(config.host.as_str());
    address.append(":");
    address.append(decimal(port as u64).as_str());
    assert(address@ =~= connection_text(config.host@, config.port));
    let connection_string = match parse_url(address.as_str()) {
        Ok(parts) => parts.text,
        Err(_) => {
            return Err(ConfigurationError::InvalidUrl);
        },
    };
    let mut command = create_command("mongodump");
    command.stdout(StdioMode::Null);
    command.current_dir(save_path);
    command.arg("--config");
    command.arg(config.configuration_file.as_str());
    command.arg("--username");
    command.arg(config.username.as_str());
    command.arg("--gzip");
    command.arg("--archive=mongo.gz");
    if let Some(database) = &config.database_name {
        command.arg("--db");
        command.arg(database.as_str());
        command.arg("--dumpDbUsersAndRoles");
    }
    if let Some(authentication_database) = &config.authentication_database_name {
        command.arg("--authenticationDatabase");
        command.arg(authentication_database.as_str());
    }
    if let Some(mechanism) = &config.authentication_mechanism {
        command.arg("--authenticationMechanism");
        command.arg(mechanism.as_str());
    }
    if let Some(collection) = &config.collection {
        command.arg("--collection");
        command.arg(collection.as_str());
    }
    if let Some(query_file) = &config.query_file {
        command.arg("--queryFile");
        command.arg(query_file.as_str());
    }
    command.arg(connection_string.as_str());
    assert(command@.args =~= mongodump_arguments(*config, connection_string@));
    Ok(command)
}

/// Builds the job that dumps the configured database into `save_path`.
pub fn start_backup(config: &MongoConfig, save_path: &str) -> (job: Result<
    BackupJob,
    ConfigurationError,
>)
    ensures
        match spec_execute_mongodump(*config, save_path@) {
            Ok(expected) => job matches Ok(built) && built@ == (BackupJobView {
                command: expected,
                timeout: None,
                stderr_as_stdout: true,
            }),
            Err(error) => job == Err::<BackupJob, _>(error),
        },
{
    match execute_mongodump(config, save_path) {
        Ok(command) => Ok(BackupJob { command, timeout: None, stderr_as_stdout: true }),
        Err(error) => Err(error),
    }
}

/// Plans the MongoDB dump below `base_backup_path`: the directory
/// `mongo/<database>` to create, `mongodb` standing in for an unnamed
/// database, and the job that fills it.
pub fn backup_mongo(base_backup_path: &str, config: &MongoConfig) -> (backup: Result<
    DatabaseBackup,
    ConfigurationError,
>)
    ensures
        match spec_backup_mongo(base_backup_path@, *config) {
            Ok(expected) => backup matches Ok(planned) && planned@ == expected,
            Err(error) => backup == Err::<DatabaseBackup, _>(error),
        },
{
    let mut relative = String::from_str("mongo/");
    match &config.database_name {
        Some(name) => relative.append(name.as_str()),
        None => relative.append("mongodb"),
    }
    let directory = join_path(base_backup_path, relative.as_str());
    match start_backup(config, directory.as_str()) {
        Ok(job) => Ok(DatabaseBackup { directory, job }),
        Err(error) => Err(error),
    }
}

} // verus!

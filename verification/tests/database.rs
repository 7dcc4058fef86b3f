use backup_tools::app_config::AppConfig;
use backup_tools::common::command::StdioMode;
use backup_tools::common::error::ConfigurationError;
use backup_tools::common::text::decimal;
use backup_tools::db::backup::backup_db;
use backup_tools::db::mongo::backup::{backup_mongo, execute_mongodump, get_mongo_config, start_backup};
use backup_tools::db::mongo::config::{MongoConfig, DEFAULT_PORT, MONGO_PREFIX};
use backup_tools::db::pgsql::backup::{
    backup_postgres, execute_pg_dump, get_postgres_config, start_pg_backup,
};
use backup_tools::db::pgsql::config::{
    PgDumpArgs, PostgresConfig, DEFAULT_PGSQL_PORT, POSTGRES_ENV_URL, POSTGRES_PREFIX,
};

fn strings(list: &[&str]) -> Vec<String> {
    list.iter().map(|s| s.to_string()).collect()
}

fn postgres(database: Option<&str>, port: Option<u16>) -> PostgresConfig {
    PostgresConfig {
        host: "db.internal".to_string(),
        port,
        database_name: database.map(|s| s.to_string()),
        username: "admin".to_string(),
        password: "s3cret".to_string(),
    }
}

fn mongo() -> MongoConfig {
    MongoConfig {
        host: "mongo.internal".to_string(),
        port: None,
        username: "root".to_string(),
        configuration_file: "/etc/mongodump.yaml".to_string(),
        database_name: None,
        authentication_database_name: None,
        authentication_mechanism: None,
        collection: None,
        query_file: None,
    }
}

#[test]
pub fn from_url_given_url_creates() {
    // Arrange
    let host = "localhost";
    let port = 5432;
    let user = "test";
    let pass = "pass";
    let db_name = "db";
    let url = format!("postgres://{}:{}@{}:{}/{}", user, pass, host, port, db_name);

    // Act
    let actual_result = PostgresConfig::from_url(&url);

    // Assert
    assert!(actual_result.is_ok());
    let actual = actual_result.unwrap();
    assert_eq!(user, actual.username);
    assert_eq!(pass, actual.password);
    assert_eq!(host, actual.host);

    // Port should be set since we explicitly defined it.
    assert!(actual.port.is_some());
    assert_eq!(port, actual.port.unwrap());

    assert!(actual.database_name.is_some());
    assert_eq!(db_name, actual.database_name.unwrap());
}

#[test]
fn from_url_without_optional_parts() {
    let config = PostgresConfig::from_url("postgres://db.internal").unwrap();
    assert_eq!(config.host, "db.internal");
    assert_eq!(config.port, None);
    assert_eq!(config.username, "");
    assert_eq!(config.password, "");
    assert_eq!(config.database_name, None);
}

#[test]
fn from_url_takes_the_first_path_segment_as_database() {
    let config = PostgresConfig::from_url("postgres://u@h/first/second").unwrap();
    assert_eq!(config.database_name, Some("first".to_string()));
    assert_eq!(config.username, "u");
    assert_eq!(config.password, "");
    let bare = PostgresConfig::from_url("postgres://h/").unwrap();
    assert_eq!(bare.database_name, Some("".to_string()));
}

#[test]
fn from_url_rejects_what_is_no_url_or_has_no_host() {
    assert_eq!(PostgresConfig::from_url("not a url"), Err(ConfigurationError::InvalidUrl));
    assert_eq!(PostgresConfig::from_url(""), Err(ConfigurationError::InvalidUrl));
    assert_eq!(
        PostgresConfig::from_url("mailto:someone@example.com"),
        Err(ConfigurationError::MissingHost)
    );
    assert_eq!(PostgresConfig::from_url("unix:/run/pg.sock"), Err(ConfigurationError::MissingHost));
}

#[test]
fn postgres_settings_prefer_the_url() {
    assert_eq!(POSTGRES_ENV_URL, "POSTGRES_URL");
    assert_eq!(POSTGRES_PREFIX, "POSTGRES_");
    let from_url =
        get_postgres_config(Some("postgres://u:p@h:6000/d"), Some(postgres(None, None))).unwrap();
    assert_eq!(from_url.host, "h");
    assert_eq!(from_url.port, Some(6000));
    let from_settings = get_postgres_config(None, Some(postgres(Some("app"), None))).unwrap();
    assert_eq!(from_settings, postgres(Some("app"), None));
    assert_eq!(get_postgres_config(None, None), Err(ConfigurationError::MissingDatabaseSettings));
    assert_eq!(
        get_postgres_config(Some("::"), Some(postgres(None, None))),
        Err(ConfigurationError::InvalidUrl)
    );
}

#[test]
fn decimal_writes_numbers_without_leading_zeros() {
    assert_eq!(decimal(0), "0");
    assert_eq!(decimal(7), "7");
    assert_eq!(decimal(10), "10");
    assert_eq!(decimal(5432), "5432");
    assert_eq!(decimal(27017), "27017");
    assert_eq!(decimal(65535), "65535");
    assert_eq!(decimal(1234567890), "1234567890");
    assert_eq!(decimal(u64::MAX), "18446744073709551615");
}

#[test]
fn pg_dump_command_keeps_the_password_off_the_command_line() {
    let command = execute_pg_dump(&postgres(Some("app"), Some(6543)), "/data/source/db/postgres/app");
    assert_eq!(command.program, "pg_dump");
    assert_eq!(command.envs, vec![("PGPASSWORD".to_string(), "s3cret".to_string())]);
    assert_eq!(
        command.args,
        strings(&[
            "-h",
            "db.internal",
            "-p",
            "6543",
            "-U",
            "admin",
            "-d",
            "app",
            "-w",
            "--lock-wait-timeout=10",
            "-F",
            "d",
            "-f",
            "/data/source/db/postgres/app",
        ])
    );
    assert!(!command.args.contains(&"s3cret".to_string()));
    assert_eq!(command.stdin, StdioMode::Null);
    assert_eq!(command.stdout, StdioMode::Piped);
    assert_eq!(command.stderr, StdioMode::Piped);
}

#[test]
fn pg_dump_command_defaults_port_and_omits_unnamed_database() {
    assert_eq!(DEFAULT_PGSQL_PORT, 5432);
    let command = execute_pg_dump(&postgres(None, None), "out");
    assert_eq!(
        command.args,
        strings(&[
            "-h",
            "db.internal",
            "-p",
            "5432",
            "-U",
            "admin",
            "-w",
            "--lock-wait-timeout=10",
            "-F",
            "d",
            "-f",
            "out",
        ])
    );
}

#[test]
fn postgres_backup_goes_below_postgres_under_its_database_name() {
    let named = backup_postgres("/data/source/db", postgres(Some("app"), None));
    assert_eq!(named.directory, "/data/source/db/postgres/app");
    assert_eq!(named.job.command.args.last().unwrap(), "/data/source/db/postgres/app");
    assert_eq!(named.job.timeout, None);
    assert!(!named.job.stderr_as_stdout);
    let unnamed = backup_postgres("/data/source/db", postgres(None, None));
    assert_eq!(unnamed.directory, "/data/source/db/postgres/db");
}

#[test]
fn start_pg_backup_uses_the_given_path() {
    let args = PgDumpArgs { config: postgres(None, None), backup_path: "/dump".to_string() };
    let job = start_pg_backup(&args);
    assert_eq!(job.command.args.last().unwrap(), "/dump");
    assert_eq!(job.timeout, None);
}

#[test]
fn mongodump_command_in_its_plainest_form() {
    assert_eq!(DEFAULT_PORT, 27017);
    assert_eq!(MONGO_PREFIX, "MONGO_");
    let command = execute_mongodump(&mongo(), "/data/source/db/mongo/mongodb").unwrap();
    assert_eq!(command.program, "mongodump");
    assert_eq!(command.current_dir, Some("/data/source/db/mongo/mongodb".to_string()));
    assert_eq!(command.stdin, StdioMode::Null);
    assert_eq!(command.stdout, StdioMode::Null);
    assert_eq!(command.stderr, StdioMode::Piped);
    assert_eq!(
        command.args,
        strings(&[
            "--config",
            "/etc/mongodump.yaml",
            "--username",
            "root",
            "--gzip",
            "--archive=mongo.gz",
            "mongodb://mongo.internal:27017",
        ])
    );
}

#[test]
fn mongodump_command_with_every_option() {
    let config = MongoConfig {
        host: "Mongo.Internal".to_string(),
        port: Some(28000),
        username: "root".to_string(),
        configuration_file: "/etc/mongodump.yaml".to_string(),
        database_name: Some("shop".to_string()),
        authentication_database_name: Some("admin".to_string()),
        authentication_mechanism: Some("SCRAM-SHA-256".to_string()),
        collection: Some("orders".to_string()),
        query_file: Some("/etc/query.json".to_string()),
    };
    let command = execute_mongodump(&config, "/dump").unwrap();
    assert_eq!(
        command.args,
        strings(&[
            "--config",
            "/etc/mongodump.yaml",
            "--username",
            "root",
            "--gzip",
            "--archive=mongo.gz",
            "--db",
            "shop",
            "--dumpDbUsersAndRoles",
            "--authenticationDatabase",
            "admin",
            "--authenticationMechanism",
            "SCRAM-SHA-256",
            "--collection",
            "orders",
            "--queryFile",
            "/etc/query.json",
            "mongodb://Mongo.Internal:28000",
        ])
    );
}

#[test]
fn mongodump_address_that_is_no_url_is_rejected() {
    let mut config = mongo();
    config.host = "bad host".to_string();
    assert_eq!(execute_mongodump(&config, "/dump"), Err(ConfigurationError::InvalidUrl));
    assert_eq!(start_backup(&config, "/dump"), Err(ConfigurationError::InvalidUrl));
    assert_eq!(backup_mongo("/base", &config), Err(ConfigurationError::InvalidUrl));
}

#[test]
fn mongo_backup_logs_the_error_stream_as_output() {
    let unnamed = backup_mongo("/data/source/db", &mongo()).unwrap();
    assert_eq!(unnamed.directory, "/data/source/db/mongo/mongodb");
    assert_eq!(
        unnamed.job.command.current_dir,
        Some("/data/source/db/mongo/mongodb".to_string())
    );
    assert!(unnamed.job.stderr_as_stdout);
    assert_eq!(unnamed.job.timeout, None);
    let mut named = mongo();
    named.database_name = Some("shop".to_string());
    assert_eq!(backup_mongo("/data/source/db", &named).unwrap().directory, "/data/source/db/mongo/shop");
}

#[test]
fn mongo_settings_must_be_supplied() {
    assert_eq!(get_mongo_config(Some(mongo())), Ok(mongo()));
    assert_eq!(get_mongo_config(None), Err(ConfigurationError::MissingDatabaseSettings));
}

#[test]
fn database_dumps_are_off_unless_switched_on() {
    let mut config = AppConfig::default();
    config.source_path = "/data/source".to_string();
    let plan = backup_db(&config);
    assert_eq!(plan.backup_path, "/data/source/db");
    assert!(!plan.create_backup_path);
    assert!(!plan.postgres);
    assert!(!plan.mongo);

    config.postgres_backup_enabled = Some(false);
    config.mongo_backup_enabled = Some(true);
    let plan = backup_db(&config);
    assert!(plan.create_backup_path);
    assert!(!plan.postgres);
    assert!(plan.mongo);

    config.postgres_backup_enabled = Some(true);
    config.mongo_backup_enabled = None;
    let plan = backup_db(&config);
    assert!(plan.create_backup_path);
    assert!(plan.postgres);
    assert!(!plan.mongo);
}

//! How to reach the MongoDB server.

use vstd::prelude::*;

verus! {

/// Prefix of the environment variables that configure the dump.
pub const MONGO_PREFIX: &'static str = "MONGO_";

/// The port assumed where none is configured.
pub const DEFAULT_PORT: u16 = 27017;

/// Connection and selection settings of the MongoDB dump.
#[derive(Clone, Debug, PartialEq, Eq)]
pub struct MongoConfig {
    pub host: String,
    pub port: Option<u16>,
    pub username: String,
    /// A file of further options, the password among them.
    pub configuration_file: String,
    pub database_name: Option<String>,
    pub authentication_database_name: Option<String>,
    pub authentication_mechanism: Option<String>,
    pub collection: Option<String>,
    pub query_file: Option<String>,
}

} // verus!

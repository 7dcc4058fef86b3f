//! Settings of the two file backup programs.

use vstd::prelude::*;

verus! {

/// Settings of the incremental mirror.
#[derive(Clone, Debug)]
pub struct RsyncConfig {
    /// Seconds the mirror may run.
    pub timeout: Option<u64>,
    pub exclude_file_path: Option<String>,
    pub destination_owner: Option<String>,
    pub destination_group: Option<String>,
    /// Copy changed files whole instead of sending differences.
    pub whole_file: Option<bool>,
}

/// Settings of the compressed archive.
#[derive(Clone, Debug)]
pub struct TarConfig {
    /// Seconds the archiver may run.
    pub timeout: Option<u64>,
    pub exclude_file_path: Option<String>,
}

} // verus!

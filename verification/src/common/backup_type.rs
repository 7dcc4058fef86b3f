//! The flavours of file backup.

use vstd::prelude::*;

verus! {

/// How the file tree is backed up.
#[derive(Clone, Copy, Debug, PartialEq, Eq, Structural)]
pub enum BackupType {
    /// A mirror of the tree that shares unchanged files with the previous
    /// backup.
    Incremental,
    /// One compressed archive of the whole tree.
    Compressed,
}

} // verus!

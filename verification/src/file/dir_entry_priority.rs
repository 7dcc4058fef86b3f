//! One backup found at the destination, ordered by when it was made.

use std::cmp::Ordering;
use vstd::prelude::*;
use vstd::std_specs::cmp::{PartialEqSpecImpl, PartialOrdSpecImpl};

verus! {

/// A backup present at the destination. Two entries compare by their
/// creation time alone: the path takes no part in equality or order.
#[derive(Clone, Debug)]
pub struct DirEntryPriority {
    pub path: String,
    /// Creation time in nanoseconds since the Unix epoch, negative before it.
    pub created: i128,
}

/// The mathematical content of a `DirEntryPriority`.
pub struct BackupEntry {
    pub path: Seq<char>,
    pub created: int,
}

impl View for DirEntryPriority {
    type V = BackupEntry;

    open spec fn view(&self) -> BackupEntry {
        BackupEntry { path: self.path@, created: self.created as int }
    }
}

impl DirEntryPriority {
    /// An entry for the backup at `path`, made at `created`.
    pub fn new(path: String, created: i128) -> (entry: DirEntryPriority)
        ensures
            entry.path == path,
            entry.created == created,
    {
        DirEntryPriority { path, created }
    }

    /// A copy of this entry.
    pub fn duplicate(&self) -> (copy: DirEntryPriority)
        ensures
            copy == *self,
    {
        DirEntryPriority { path: self.path.clone(), created: self.created }
    }

    /// How this entry stands to `other` in time: `Less` when it is older.
    pub open spec fn ordering(&self, other: &DirEntryPriority) -> Ordering {
        if self.created < other.created {
            Ordering::Less
        } else if self.created == other.created {
            Ordering::Equal
        } else {
            Ordering::Greater
        }
    }

    /// Compares two entries by creation time.
    pub fn cmp(&self, other: &DirEntryPriority) -> (order: Ordering)
        ensures
            order == self.ordering(other),
    {
        if self.created < other.created {
            Ordering::Less
        } else if self.created == other.created {
            Ordering::Equal
        } else {
            Ordering::Greater
        }
    }
}

impl PartialEq for DirEntryPriority {
    fn eq(&self, other: &DirEntryPriority) -> (equal: bool) {
        self.created == other.created
    }
}

impl PartialEqSpecImpl for DirEntryPriority {
    open spec fn obeys_eq_spec() -> bool {
        true
    }

    open spec fn eq_spec(&self, other: &DirEntryPriority) -> bool {
        self.created == other.created
    }
}

impl Eq for DirEntryPriority {

}

impl PartialOrd for DirEntryPriority {
    fn partial_cmp(&self, other: &DirEntryPriority) -> (order: Option<Ordering>) {
        if self.created < other.created {
            Some(Ordering::Less)
        } else if self.created == other.created {
            Some(Ordering::Equal)
        } else {
            Some(Ordering::Greater)
        }
    }
}

impl PartialOrdSpecImpl for DirEntryPriority {
    open spec fn obeys_partial_cmp_spec() -> bool {
        true
    }

    open spec fn partial_cmp_spec(&self, other: &DirEntryPriority) -> Option<Ordering> {
        Some(self.ordering(other))
    }
}

} // verus!

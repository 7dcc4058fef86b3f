//! Database backups: dumps written below the source tree, so that the file
//! backup picks them up.

pub mod backup;
pub mod mongo;
pub mod pgsql;

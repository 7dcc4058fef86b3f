//! File backups: what exists at the destination, what to create next and
//! what to evict.

pub mod backup;
pub mod backup_client;
pub mod config;
pub mod dir_entry_priority;
pub mod retention;
pub mod rsync;
pub mod tar;

//! Pieces shared by every backup flavour.

pub mod backup_type;
pub mod command;
pub mod error;
pub mod paths;
pub mod process;
pub mod text;
pub mod url;

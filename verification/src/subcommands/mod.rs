//! The rules behind the commands of the journal tool.

pub mod edit;
pub mod log;
pub mod update;

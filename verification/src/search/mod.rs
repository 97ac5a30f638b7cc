//! The workspace search: one active query at a time over an index of file
//! names or of lines.

pub mod lines;
pub mod matcher;
pub mod search_manager;
pub mod types;

//! The terminal broker: which terminals exist, and what goes over their bus.

pub mod terminal_manager;
pub mod terminal_server;
pub mod types;

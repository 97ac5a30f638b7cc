//! The language-server adapter: framing, request correlation and the choice of
//! a server for a file.

pub mod framing;
pub mod json;
pub mod messages;
pub mod lsp_server;
pub mod types;
pub mod lsp_manager;

//! The core of a remote code editor's backend: the workspace jail, the directory
//! cache, the file-event batcher, the document model, the language-server
//! transport, the search over the workspace, the terminal registry, and the
//! rules by which a session answers its client. Everything here works on plain
//! values; reading files, running child processes and talking to the client
//! are left to the caller.

pub mod file_system;
pub mod lsp;
pub mod request;
pub mod search;
pub mod server;
pub mod terminal;
pub mod text;
pub mod utils;

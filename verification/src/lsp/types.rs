//! How a language server is configured.

use vstd::prelude::*;

verus! {

/// One language server: its name, the file extensions it serves, the program
/// to run with its arguments, and the options handed over at initialisation,
/// as JSON.
#[derive(Clone, Debug, PartialEq, Eq)]
pub struct LspConfiguration {
    pub name: String,
    pub file_extensions: Vec<String>,
    pub server_path: String,
    pub server_args: Vec<String>,
    pub initialization_options: Option<Vec<u8>>,
}

impl LspConfiguration {
    /// A copy of the configuration.
    pub fn duplicate(&self) -> (r: LspConfiguration)
        ensures
            r.name == self.name,
            r.file_extensions.deep_view() == self.file_extensions.deep_view(),
            r.server_path == self.server_path,
            r.server_args.deep_view() == self.server_args.deep_view(),
            r.initialization_options.deep_view() == self.initialization_options.deep_view(),
    {
        LspConfiguration {
            name: self.name.clone(),
            file_extensions: self.file_extensions.clone(),
            server_path: self.server_path.clone(),
            server_args: self.server_args.clone(),
            initialization_options: self.initialization_options.clone(),
        }
    }
}

/// A position in a document: a line, counted from 0, and an offset into the
/// line in UTF-16 code units.
#[derive(Clone, Copy, Debug, PartialEq, Eq, Structural)]
pub struct Position {
    pub line: u32,
    pub character: u32,
}

} // verus!

//! The values that a search takes and gives.

use vstd::prelude::*;

verus! {

/// What to search for.
#[derive(Clone, Debug, PartialEq, Eq)]
pub struct SearchOptions {
    pub query: String,
    pub case_sensitive: bool,
}

/// A line that a search found.
#[derive(Clone, Debug, PartialEq, Eq)]
pub struct SearchResult {
    pub file_path: String,
    pub line_number: u32,
    pub line_content: String,
}

/// How far a search has come.
#[derive(Clone, Debug, PartialEq, Eq)]
pub enum SearchStatus {
    Started,
    Completed,
    Error { message: String },
}

/// A row that can be searched.
#[derive(Clone, Debug, PartialEq, Eq)]
pub struct SearchItem {
    pub path: String,
    pub line_number: u32,
    pub content: String,
}

/// A match, as it is reported to the client.
#[derive(Clone, Debug, PartialEq, Eq)]
pub struct SearchResultItem {
    pub path: String,
    pub line_number: u32,
    pub content: String,
}

/// What the searcher puts on its bus.
#[derive(Clone, Debug, PartialEq, Eq)]
pub enum SearchMessage {
    /// A batch of matches; `is_complete` marks the last batch of a search.
    Results { search_id: String, items: Vec<SearchResultItem>, is_complete: bool },
    /// The search failed.
    Error { search_id: String, error: String },
}

/// Why a search failed.
#[derive(Clone, Copy, Debug, PartialEq, Eq, Structural)]
pub enum SearchError {
    /// The files of the workspace could not be listed.
    IndexingFailed,
}

impl SearchError {
    /// The message shown to the client.
    pub fn message(&self) -> (r: String)
        ensures
            r@ == "Failed to index the workspace"@,
    {
        "Failed to index the workspace".to_owned()
    }
}

/// What a search is matched against.
#[derive(Clone, Copy, Debug, PartialEq, Eq, Structural)]
pub enum SearchMode {
    /// The paths of the workspace's files.
    Filename,
    /// The lines of the workspace's files.
    Content,
}

/// A row of the index: a file, or a line of a file. A file as such has the
/// line number 0 and no line text.
#[derive(Clone, Debug, PartialEq, Eq)]
pub struct LineContent {
    pub path: String,
    pub line_number: u32,
    pub line: String,
}

/// A row as plain values: path, line number, line text.
pub struct RowView {
    pub path: Seq<char>,
    pub line_number: u32,
    pub line: Seq<char>,
}

impl View for LineContent {
    type V = RowView;

    open spec fn view(&self) -> RowView {
        RowView { path: self.path@, line_number: self.line_number, line: self.line@ }
    }
}

/// The rows of a list, as plain values.
pub open spec fn rows_view(rows: Seq<LineContent>) -> Seq<RowView> {
    rows.map_values(|row: LineContent| row@)
}

/// A file that the index is built from: its path, its size, and its text where
/// it could be read as text.
#[derive(Clone, Debug, PartialEq, Eq)]
pub struct SourceFile {
    pub path: String,
    pub size: u64,
    pub content: Option<String>,
}

} // verus!

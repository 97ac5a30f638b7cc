//! The handling of one request, step by step: which work the server has to
//! do next, and which answer the request ends with.
//!
//! The caller starts with `start`, does the work that each action names,
//! hands what came of it to `advance`, and goes on until the action is a
//! reply.

use vstd::prelude::*;
use crate::file_system::directory_manager::FileNode;
use crate::file_system::document_manager::DiffChange;
use crate::file_system::document_manager::DocumentMetadata;
use crate::file_system::document_manager::DocumentState;
use crate::file_system::document_manager::VersionedDocument;
use crate::lsp::types::Position;
use crate::server::change_response;
use crate::server::check_closable;
use crate::server::check_openable;
use crate::server::content_failure_response;
use crate::server::directory_response;
use crate::server::error_response;
use crate::server::failed_request_response;
use crate::server::is_error;
use crate::server::is_lsp_reply;
use crate::server::lsp_response;
use crate::server::open_response;
use crate::server::save_response;
use crate::server::search_response;
use crate::server::searches_content;
use crate::server::terminal_closed_response;
use crate::server::terminal_created_response;
use crate::server::terminal_resize_response;
use crate::server::terminal_write_response;
use crate::server::ClientMessage;
use crate::server::LspQuery;
use crate::server::ServerMessage;
use crate::terminal::types::TerminalSize;

verus! {

/// The work that the server does next for a request.
#[derive(Debug, PartialEq, Eq)]
pub enum Action {
    /// Resolve `path` against the workspace; `document` tells the path of a
    /// document from any other.
    Resolve { path: String, document: bool },
    /// Get the listing of the directory `path`, from the cache if it is there.
    LoadDirectory { path: String },
    /// Read the directory `path` anew.
    RefreshDirectory { path: String },
    /// Look whether something exists at `path`, and whether it is a file.
    Inspect { path: String },
    /// Open the document at `path`.
    OpenFile { path: String },
    /// Tell the language server that the document was opened.
    NotifyOpened { path: String, content: String, version: i32 },
    /// Get the state of the document at `path`.
    GetDocumentState { path: String },
    /// Tell the language server that the document was closed.
    NotifyClosed { path: String },
    /// Drop the cached text of the document.
    InvalidateCache { path: String },
    /// Mark the document as closed.
    CloseFile { path: String },
    /// Apply the changes to the document.
    ChangeDocument { document: VersionedDocument, changes: Vec<DiffChange> },
    /// Get the text of the document.
    GetContent { path: String },
    /// Tell the language server of the document's new text.
    NotifyChanged { path: String, content: String, version: i32 },
    /// Save the document.
    SaveDocument { document: VersionedDocument },
    /// Tell the language server that the document was saved.
    NotifySaved { path: String, content: String, version: i32 },
    /// Ask the language server about a position.
    Ask { query: LspQuery, path: String, position: Position },
    CreateTerminal { size: TerminalSize },
    WriteTerminal { id: String, data: Vec<u8> },
    ResizeTerminal { id: String, size: TerminalSize },
    CloseTerminal { id: String },
    /// Start a search.
    Search { id: String, query: String, search_content: bool },
    /// End the search under way.
    CancelSearch,
    /// The request is done: `reply` answers it.
    Reply { reply: ServerMessage },
}

/// What came of an action. Failures come with their reason as text.
#[derive(Debug, PartialEq, Eq)]
pub enum Outcome {
    /// Of `Resolve`: the canonical path inside the workspace.
    Resolved(Result<String, String>),
    /// Of `LoadDirectory` and `RefreshDirectory`.
    Listing(Result<Vec<FileNode>, String>),
    /// Of `Inspect`.
    Inspected { exists: bool, is_file: bool },
    /// Of `OpenFile`: text, metadata and version.
    Opened(Result<(String, DocumentMetadata, i32), String>),
    /// Of `GetDocumentState`.
    State(Option<DocumentState>),
    /// Of `ChangeDocument`.
    Changed(Result<VersionedDocument, String>),
    /// Of `GetContent`.
    Content(Result<String, String>),
    /// Of `SaveDocument`.
    Saved(Result<VersionedDocument, String>),
    /// Of `Ask`: what the language server answered, as JSON.
    Answer(Result<Option<Vec<u8>>, String>),
    /// Of `CreateTerminal`: the id of the terminal.
    Created(Result<String, String>),
    /// Of every other action.
    Done(Result<(), String>),
}

/// What a request does once its path is resolved.
#[derive(Debug, PartialEq, Eq)]
pub enum Pending {
    GetDirectory,
    RefreshDirectory,
    OpenFile { requested: String },
    CloseFile { requested: String },
    ChangeFile { version: i32, changes: Vec<DiffChange> },
    SaveFile { version: i32 },
    Ask { query: LspQuery, position: Position },
}

/// Where the handling of a request stands: which outcome it waits for, and
/// what it keeps for the steps to come.
#[derive(Debug, PartialEq, Eq)]
pub enum Stage {
    Resolving { then: Pending },
    Listing { path: String, refresh: bool },
    Inspecting { requested: String, path: String },
    Opening { path: String },
    NotifyingOpened { path: String, content: String, metadata: DocumentMetadata, version: i32 },
    CheckingState { requested: String, path: String },
    NotifyingClosed { path: String },
    Invalidating { path: String },
    Closing,
    Changing { path: String },
    ReadingChanged { path: String, document: VersionedDocument },
    NotifyingChanged { document: VersionedDocument },
    ReadingForSave { path: String, version: i32 },
    Saving { path: String, content: String },
    NotifyingSaved { document: VersionedDocument },
    Asking { query: LspQuery },
    CreatingTerminal,
    WritingTerminal,
    ResizingTerminal,
    ClosingTerminal { id: String },
    Searching,
    Cancelling,
    /// The reply is out.
    Finished,
}

/// What a step comes to.
pub enum Expected {
    /// The request goes on at `stage` with `action`.
    Act { stage: Stage, action: Action },
    /// The request ends with the error that `what` failed because of `why`.
    Refuse { what: Seq<char>, why: Seq<char> },
    /// The request ends with `reply`.
    Conclude { reply: ServerMessage },
    /// The request ends with the answer to a position request.
    Answer { query: LspQuery, answer: Result<Option<Vec<u8>>, String> },
}

/// The first step for `message`: requests that name a path have it resolved
/// before anything else; the others go straight to their work.
pub open spec fn first_step(message: ClientMessage) -> (Stage, Action) {
    match message {
        ClientMessage::GetDirectory { path } => (
            Stage::Resolving { then: Pending::GetDirectory },
            Action::Resolve { path, document: false },
        ),
        ClientMessage::RefreshDirectory { path } => (
            Stage::Resolving { then: Pending::RefreshDirectory },
            Action::Resolve { path, document: false },
        ),
        ClientMessage::OpenFile { path } => (
            Stage::Resolving { then: Pending::OpenFile { requested: path } },
            Action::Resolve { path, document: false },
        ),
        ClientMessage::CloseFile { path } => (
            Stage::Resolving { then: Pending::CloseFile { requested: path } },
            Action::Resolve { path, document: false },
        ),
        ClientMessage::ChangeFile { document, changes } => (
            Stage::Resolving { then: Pending::ChangeFile { version: document.version, changes } },
            Action::Resolve { path: document.uri, document: true },
        ),
        ClientMessage::SaveFile { document } => (
            Stage::Resolving { then: Pending::SaveFile { version: document.version } },
            Action::Resolve { path: document.uri, document: true },
        ),
        ClientMessage::Completion { path, position } => (
            Stage::Resolving { then: Pending::Ask { query: LspQuery::Completion, position } },
            Action::Resolve { path, document: false },
        ),
        ClientMessage::Hover { path, position } => (
            Stage::Resolving { then: Pending::Ask { query: LspQuery::Hover, position } },
            Action::Resolve { path, document: false },
        ),
        ClientMessage::Definition { path, position } => (
            Stage::Resolving { then: Pending::Ask { query: LspQuery::Definition, position } },
            Action::Resolve { path, document: false },
        ),
        ClientMessage::CreateTerminal { cols, rows } => (
            Stage::CreatingTerminal,
            Action::CreateTerminal { size: TerminalSize { rows, cols } },
        ),
        ClientMessage::ResizeTerminal { id, cols, rows } => (
            Stage::ResizingTerminal,
            Action::ResizeTerminal { id, size: TerminalSize { rows, cols } },
        ),
        ClientMessage::WriteTerminal { id, data } => (
            Stage::WritingTerminal,
            Action::WriteTerminal { id, data },
        ),
        ClientMessage::CloseTerminal { id } => (
            Stage::ClosingTerminal { id },
            Action::CloseTerminal { id },
        ),
        ClientMessage::Search { id, query, search_filename_only } => (
            Stage::Searching,
            Action::Search { id, query, search_content: !search_filename_only },
        ),
        ClientMessage::CancelSearch { id } => (Stage::Cancelling, Action::CancelSearch),
    }
}

/// What an outcome that does not belong to the stage comes to.
pub open spec fn unexpected() -> Expected {
    Expected::Refuse { what: "Error processing request"@, why: "Unexpected outcome"@ }
}

/// What a request does with its resolved path.
pub open spec fn resolved_step(then: Pending, path: String) -> Expected {
    match then {
        Pending::GetDirectory => Expected::Act {
            stage: Stage::Listing { path, refresh: false },
            action: Action::LoadDirectory { path },
        },
        Pending::RefreshDirectory => Expected::Act {
            stage: Stage::Listing { path, refresh: true },
            action: Action::RefreshDirectory { path },
        },
        Pending::OpenFile { requested } => Expected::Act {
            stage: Stage::Inspecting { requested, path },
            action: Action::Inspect { path },
        },
        Pending::CloseFile { requested } => Expected::Act {
            stage: Stage::CheckingState { requested, path },
            action: Action::GetDocumentState { path },
        },
        Pending::ChangeFile { version, changes } => Expected::Act {
            stage: Stage::Changing { path },
            action: Action::ChangeDocument {
                document: VersionedDocument { uri: path, version },
                changes,
            },
        },
        Pending::SaveFile { version } => Expected::Act {
            stage: Stage::ReadingForSave { path, version },
            action: Action::GetContent { path },
        },
        Pending::Ask { query, position } => Expected::Act {
            stage: Stage::Asking { query },
            action: Action::Ask { query, path, position },
        },
    }
}

/// What the work of a stage failed at, for the stages that end the request
/// with an error when their work fails.
pub open spec fn failure_of(stage: Stage) -> Seq<char> {
    match stage {
        Stage::Resolving { then } => if then is ChangeFile || then is SaveFile {
            "Invalid document path"@
        } else {
            "Invalid path"@
        },
        Stage::Listing { refresh, .. } => if refresh {
            "Failed to refresh directory"@
        } else {
            "Failed to load directory"@
        },
        Stage::Opening { .. } => "Failed to open file"@,
        Stage::Closing => "Failed to close file"@,
        Stage::Changing { .. } => "Failed to apply changes"@,
        Stage::ReadingChanged { .. } => "Failed to get document content"@,
        Stage::ReadingForSave { .. } => "Failed to get document content"@,
        Stage::Saving { .. } => "Failed to save document"@,
        Stage::CreatingTerminal => "Failed to create terminal"@,
        Stage::WritingTerminal => "Failed to write to terminal"@,
        Stage::ResizingTerminal => "Failed to resize terminal"@,
        Stage::ClosingTerminal { .. } => "Failed to close terminal"@,
        Stage::Searching => "Search failed"@,
        _ => "Error processing request"@,
    }
}

/// What `outcome` comes to at `stage`.
///
/// A path that cannot be resolved ends the request before any other work. A
/// file is opened only where something exists at its path and is a file, and
/// closed only where its document is open. The language server hears of an
/// opening, a change and a save after they went through, and of a closing
/// before the cache lets go of the text; whether it could be told does not
/// change the answer.
pub open spec fn expected(stage: Stage, outcome: Outcome) -> Expected {
    match (stage, outcome) {
        (Stage::Resolving { then }, Outcome::Resolved(Ok(path))) => resolved_step(then, path),
        (Stage::Resolving { .. }, Outcome::Resolved(Err(why))) => Expected::Refuse {
            what: failure_of(stage),
            why: why@,
        },
        (Stage::Listing { path, .. }, Outcome::Listing(Ok(nodes))) => Expected::Conclude {
            reply: ServerMessage::DirectoryContent { path, content: nodes },
        },
        (Stage::Listing { .. }, Outcome::Listing(Err(why))) => Expected::Refuse {
            what: failure_of(stage),
            why: why@,
        },
        (Stage::Inspecting { requested, path }, Outcome::Inspected { exists, is_file }) => if !exists {
            Expected::Refuse { what: "File does not exist"@, why: requested@ }
        } else if !is_file {
            Expected::Refuse { what: "Path is not a file"@, why: requested@ }
        } else {
            Expected::Act { stage: Stage::Opening { path }, action: Action::OpenFile { path } }
        },
        (Stage::Opening { path }, Outcome::Opened(Ok((content, metadata, version)))) => Expected::Act {
            stage: Stage::NotifyingOpened { path, content, metadata, version },
            action: Action::NotifyOpened { path, content, version },
        },
        (Stage::Opening { .. }, Outcome::Opened(Err(why))) => Expected::Refuse {
            what: failure_of(stage),
            why: why@,
        },
        (
            Stage::NotifyingOpened { path, content, metadata, version },
            Outcome::Done(_),
        ) => Expected::Conclude {
            reply: ServerMessage::DocumentContent { path, content, metadata, version },
        },
        (Stage::CheckingState { requested, path }, Outcome::State(Some(state))) => if state.is_open {
            Expected::Act {
                stage: Stage::NotifyingClosed { path },
                action: Action::NotifyClosed { path },
            }
        } else {
            Expected::Refuse { what: "File was not open"@, why: requested@ }
        },
        (Stage::CheckingState { .. }, Outcome::State(None)) => Expected::Refuse {
            what: "Error processing request"@,
            why: "Failed to get document state: Document state not found"@,
        },
        (Stage::NotifyingClosed { path }, Outcome::Done(_)) => Expected::Act {
            stage: Stage::Invalidating { path },
            action: Action::InvalidateCache { path },
        },
        (Stage::Invalidating { path }, Outcome::Done(_)) => Expected::Act {
            stage: Stage::Closing,
            action: Action::CloseFile { path },
        },
        (Stage::Closing, Outcome::Done(Ok(_))) => Expected::Conclude {
            reply: ServerMessage::Success {  },
        },
        (Stage::Closing, Outcome::Done(Err(why))) => Expected::Refuse {
            what: failure_of(stage),
            why: why@,
        },
        (Stage::Changing { path }, Outcome::Changed(Ok(document))) => Expected::Act {
            stage: Stage::ReadingChanged { path, document },
            action: Action::GetContent { path },
        },
        (Stage::Changing { .. }, Outcome::Changed(Err(why))) => Expected::Refuse {
            what: failure_of(stage),
            why: why@,
        },
        (Stage::ReadingChanged { path, document }, Outcome::Content(Ok(content))) => Expected::Act {
            stage: Stage::NotifyingChanged { document },
            action: Action::NotifyChanged { path, content, version: document.version },
        },
        (Stage::ReadingChanged { .. }, Outcome::Content(Err(why))) => Expected::Refuse {
            what: failure_of(stage),
            why: why@,
        },
        (Stage::NotifyingChanged { document }, Outcome::Done(_)) => Expected::Conclude {
            reply: ServerMessage::ChangeSuccess { document },
        },
        (Stage::ReadingForSave { path, version }, Outcome::Content(Ok(content))) => Expected::Act {
            stage: Stage::Saving { path, content },
            action: Action::SaveDocument { document: VersionedDocument { uri: path, version } },
        },
        (Stage::ReadingForSave { .. }, Outcome::Content(Err(why))) => Expected::Refuse {
            what: failure_of(stage),
            why: why@,
        },
        (Stage::Saving { path, content }, Outcome::Saved(Ok(document))) => Expected::Act {
            stage: Stage::NotifyingSaved { document },
            action: Action::NotifySaved { path, content, version: document.version },
        },
        (Stage::Saving { .. }, Outcome::Saved(Err(why))) => Expected::Refuse {
            what: failure_of(stage),
            why: why@,
        },
        (Stage::NotifyingSaved { document }, Outcome::Done(_)) => Expected::Conclude {
            reply: ServerMessage::SaveSuccess { document },
        },
        (Stage::Asking { query }, Outcome::Answer(answer)) => Expected::Answer { query, answer },
        (Stage::CreatingTerminal, Outcome::Created(Ok(id))) => Expected::Conclude {
            reply: ServerMessage::TerminalCreated { terminal_id: id },
        },
        (Stage::CreatingTerminal, Outcome::Created(Err(why))) => Expected::Refuse {
            what: failure_of(stage),
            why: why@,
        },
        (Stage::WritingTerminal, Outcome::Done(Ok(_))) => Expected::Conclude {
            reply: ServerMessage::Success {  },
        },
        (Stage::WritingTerminal, Outcome::Done(Err(why))) => Expected::Refuse {
            what: failure_of(stage),
            why: why@,
        },
        (Stage::ResizingTerminal, Outcome::Done(Ok(_))) => Expected::Conclude {
            reply: ServerMessage::Success {  },
        },
        (Stage::ResizingTerminal, Outcome::Done(Err(why))) => Expected::Refuse {
            what: failure_of(stage),
            why: why@,
        },
        (Stage::ClosingTerminal { id }, Outcome::Done(Ok(_))) => Expected::Conclude {
            reply: ServerMessage::TerminalClosed { id },
        },
        (Stage::ClosingTerminal { .. }, Outcome::Done(Err(why))) => Expected::Refuse {
            what: failure_of(stage),
            why: why@,
        },
        (Stage::Searching, Outcome::Done(Ok(_))) => Expected::Conclude {
            reply: ServerMessage::Success {  },
        },
        (Stage::Searching, Outcome::Done(Err(why))) => Expected::Refuse {
            what: failure_of(stage),
            why: why@,
        },
        (Stage::Cancelling, Outcome::Done(_)) => Expected::Conclude {
            reply: ServerMessage::Success {  },
        },
        _ => unexpected(),
    }
}

/// Whether the step to `stage` with `action` is what was expected.
pub open spec fn meets(stage: Stage, action: Action, wanted: Expected) -> bool {
    match wanted {
        Expected::Act { stage: next, action: act } => stage == next && action == act,
        Expected::Refuse { what, why } => {
            &&& stage is Finished
            &&& action matches Action::Reply { reply }
            &&& is_error(reply, what, why)
        },
        Expected::Conclude { reply: answer } => stage is Finished && action == (Action::Reply {
            reply: answer,
        }),
        Expected::Answer { query, answer } => {
            &&& stage is Finished
            &&& action matches Action::Reply { reply }
            &&& is_lsp_reply(reply, query, answer)
        },
    }
}

/// How many outcomes a request at `stage` can still take in before it is
/// answered.
pub open spec fn steps_left(stage: Stage) -> nat {
    match stage {
        Stage::Resolving { .. } => 5,
        Stage::CheckingState { .. } => 4,
        Stage::Inspecting { .. } => 3,
        Stage::NotifyingClosed { .. } => 3,
        Stage::Changing { .. } => 3,
        Stage::ReadingForSave { .. } => 3,
        Stage::Opening { .. } => 2,
        Stage::Invalidating { .. } => 2,
        Stage::ReadingChanged { .. } => 2,
        Stage::Saving { .. } => 2,
        Stage::Finished => 0,
        _ => 1,
    }
}

/// The path that an action works on, for the actions on files and
/// directories.
pub open spec fn action_path(action: Action) -> Option<String> {
    match action {
        Action::LoadDirectory { path } => Some(path),
        Action::RefreshDirectory { path } => Some(path),
        Action::Inspect { path } => Some(path),
        Action::OpenFile { path } => Some(path),
        Action::NotifyOpened { path, .. } => Some(path),
        Action::GetDocumentState { path } => Some(path),
        Action::NotifyClosed { path } => Some(path),
        Action::InvalidateCache { path } => Some(path),
        Action::CloseFile { path } => Some(path),
        Action::ChangeDocument { document, .. } => Some(document.uri),
        Action::GetContent { path } => Some(path),
        Action::NotifyChanged { path, .. } => Some(path),
        Action::SaveDocument { document } => Some(document.uri),
        Action::NotifySaved { path, .. } => Some(path),
        Action::Ask { path, .. } => Some(path),
        _ => None,
    }
}

/// The resolved path that a stage keeps for the steps to come.
pub open spec fn stage_path(stage: Stage) -> Option<String> {
    match stage {
        Stage::Listing { path, .. } => Some(path),
        Stage::Inspecting { path, .. } => Some(path),
        Stage::Opening { path } => Some(path),
        Stage::NotifyingOpened { path, .. } => Some(path),
        Stage::CheckingState { path, .. } => Some(path),
        Stage::NotifyingClosed { path } => Some(path),
        Stage::Invalidating { path } => Some(path),
        Stage::Changing { path } => Some(path),
        Stage::ReadingChanged { path, .. } => Some(path),
        Stage::ReadingForSave { path, .. } => Some(path),
        Stage::Saving { path, .. } => Some(path),
        _ => None,
    }
}

/// Every request is answered: each outcome brings it closer to its reply, and
/// a request that starts by resolving a path is answered after five outcomes
/// at most.
pub proof fn lemma_requests_end(stage: Stage, outcome: Outcome)
    ensures
        expected(stage, outcome) matches Expected::Act { stage: next, .. } ==> steps_left(next)
            < steps_left(stage),
        steps_left(stage) <= 5,
{
}

/// Work on files and directories is done on resolved paths only: the first
/// action on a path is on the path that the resolution gave, and every later
/// one is on the path that the stage has kept.
pub proof fn lemma_actions_use_the_resolved_path(stage: Stage, outcome: Outcome)
    ensures
        expected(stage, outcome) matches Expected::Act { stage: next, action } ==> {
            &&& action_path(action) matches Some(path) ==> (match stage {
                Stage::Resolving { .. } => outcome == Outcome::Resolved(
                    Ok::<String, String>(path),
                ),
                _ => stage_path(stage) == Some(path),
            })
            &&& stage_path(next) matches Some(kept) ==> action_path(action) == Some(kept)
        },
{
}

/// The first step of the handling of `message`.
pub fn start(message: ClientMessage) -> (r: (Stage, Action))
    ensures
        r == first_step(message),
{
    match message {
        ClientMessage::GetDirectory { path } => (
            Stage::Resolving { then: Pending::GetDirectory },
            Action::Resolve { path, document: false },
        ),
        ClientMessage::RefreshDirectory { path } => (
            Stage::Resolving { then: Pending::RefreshDirectory },
            Action::Resolve { path, document: false },
        ),
        ClientMessage::OpenFile { path } => (
            Stage::Resolving { then: Pending::OpenFile { requested: path.clone() } },
            Action::Resolve { path, document: false },
        ),
        ClientMessage::CloseFile { path } => (
            Stage::Resolving { then: Pending::CloseFile { requested: path.clone() } },
            Action::Resolve { path, document: false },
        ),
        ClientMessage::ChangeFile { document, changes } => (
            Stage::Resolving { then: Pending::ChangeFile { version: document.version, changes } },
            Action::Resolve { path: document.uri, document: true },
        ),
        ClientMessage::SaveFile { document } => (
            Stage::Resolving { then: Pending::SaveFile { version: document.version } },
            Action::Resolve { path: document.uri, document: true },
        ),
        ClientMessage::Completion { path, position } => (
            Stage::Resolving { then: Pending::Ask { query: LspQuery::Completion, position } },
            Action::Resolve { path, document: false },
        ),
        ClientMessage::Hover { path, position } => (
            Stage::Resolving { then: Pending::Ask { query: LspQuery::Hover, position } },
            Action::Resolve { path, document: false },
        ),
        ClientMessage::Definition { path, position } => (
            Stage::Resolving { then: Pending::Ask { query: LspQuery::Definition, position } },
            Action::Resolve { path, document: false },
        ),
        ClientMessage::CreateTerminal { cols, rows } => (
            Stage::CreatingTerminal,
            Action::CreateTerminal { size: TerminalSize { rows, cols } },
        ),
        ClientMessage::ResizeTerminal { id, cols, rows } => (
            Stage::ResizingTerminal,
            Action::ResizeTerminal { id, size: TerminalSize { rows, cols } },
        ),
        ClientMessage::WriteTerminal { id, data } => (
            Stage::WritingTerminal,
            Action::WriteTerminal { id, data },
        ),
        ClientMessage::CloseTerminal { id } => (
            Stage::ClosingTerminal { id: id.clone() },
            Action::CloseTerminal { id },
        ),
        ClientMessage::Search { id, query, search_filename_only } => (
            Stage::Searching,
            Action::Search { id, query, search_content: searches_content(search_filename_only) },
        ),
        ClientMessage::CancelSearch { .. } => (Stage::Cancelling, Action::CancelSearch),
    }
}

/// The end of a request: `reply` goes out.
fn finish(reply: ServerMessage) -> (r: (Stage, Action))
    ensures
        r.0 is Finished,
        r.1 == (Action::Reply { reply }),
{
    (Stage::Finished, Action::Reply { reply })
}

/// The end of a request whose last outcome does not belong to its stage.
fn refuse_unexpected() -> (r: (Stage, Action))
    ensures
        meets(r.0, r.1, unexpected()),
{
    finish(failed_request_response("Unexpected outcome"))
}

/// What a request does with its resolved path.
fn after_resolution(then: Pending, path: String) -> (r: (Stage, Action))
    ensures
        meets(r.0, r.1, resolved_step(then, path)),
{
    match then {
        Pending::GetDirectory => (
            Stage::Listing { path: path.clone(), refresh: false },
            Action::LoadDirectory { path },
        ),
        Pending::RefreshDirectory => (
            Stage::Listing { path: path.clone(), refresh: true },
            Action::RefreshDirectory { path },
        ),
        Pending::OpenFile { requested } => (
            Stage::Inspecting { requested, path: path.clone() },
            Action::Inspect { path },
        ),
        Pending::CloseFile { requested } => (
            Stage::CheckingState { requested, path: path.clone() },
            Action::GetDocumentState { path },
        ),
        Pending::ChangeFile { version, changes } => (
            Stage::Changing { path: path.clone() },
            Action::ChangeDocument { document: VersionedDocument { uri: path, version }, changes },
        ),
        Pending::SaveFile { version } => (
            Stage::ReadingForSave { path: path.clone(), version },
            Action::GetContent { path },
        ),
        Pending::Ask { query, position } => (
            Stage::Asking { query },
            Action::Ask { query, path, position },
        ),
    }
}

/// The next step of a request at `stage` that is handed `outcome`.
pub fn advance(stage: Stage, outcome: Outcome) -> (r: (Stage, Action))
    ensures
        meets(r.0, r.1, expected(stage, outcome)),
{
    match stage {
        Stage::Resolving { then } => match outcome {
            Outcome::Resolved(Ok(path)) => after_resolution(then, path),
            Outcome::Resolved(Err(why)) => match then {
                Pending::ChangeFile { .. } | Pending::SaveFile { .. } => finish(
                    error_response("Invalid document path", why.as_str()),
                ),
                _ => finish(error_response("Invalid path", why.as_str())),
            },
            _ => refuse_unexpected(),
        },
        Stage::Listing { path, refresh } => match outcome {
            Outcome::Listing(listing) => finish(directory_response(path, listing, refresh)),
            _ => refuse_unexpected(),
        },
        Stage::Inspecting { requested, path } => match outcome {
            Outcome::Inspected { exists, is_file } => match check_openable(
                requested.as_str(),
                exists,
                is_file,
            ) {
                Some(refusal) => finish(refusal),
                None => (Stage::Opening { path: path.clone() }, Action::OpenFile { path }),
            },
            _ => refuse_unexpected(),
        },
        Stage::Opening { path } => match outcome {
            Outcome::Opened(Ok((content, metadata, version))) => (
                Stage::NotifyingOpened {
                    path: path.clone(),
                    content: content.clone(),
                    metadata,
                    version,
                },
                Action::NotifyOpened { path, content, version },
            ),
            Outcome::Opened(Err(why)) => finish(open_response(path, Err(why))),
            _ => refuse_unexpected(),
        },
        Stage::NotifyingOpened { path, content, metadata, version } => match outcome {
            Outcome::Done(_) => finish(open_response(path, Ok((content, metadata, version)))),
            _ => refuse_unexpected(),
        },
        Stage::CheckingState { requested, path } => match outcome {
            Outcome::State(state) => match check_closable(requested.as_str(), state) {
                Some(refusal) => finish(refusal),
                None => (
                    Stage::NotifyingClosed { path: path.clone() },
                    Action::NotifyClosed { path },
                ),
            },
            _ => refuse_unexpected(),
        },
        Stage::NotifyingClosed { path } => match outcome {
            Outcome::Done(_) => (
                Stage::Invalidating { path: path.clone() },
                Action::InvalidateCache { path },
            ),
            _ => refuse_unexpected(),
        },
        Stage::Invalidating { path } => match outcome {
            Outcome::Done(_) => (Stage::Closing, Action::CloseFile { path }),
            _ => refuse_unexpected(),
        },
        Stage::Closing => match outcome {
            Outcome::Done(Ok(_)) => finish(ServerMessage::Success {  }),
            Outcome::Done(Err(why)) => finish(error_response("Failed to close file", why.as_str())),
            _ => refuse_unexpected(),
        },
        Stage::Changing { path } => match outcome {
            Outcome::Changed(Ok(document)) => (
                Stage::ReadingChanged { path: path.clone(), document },
                Action::GetContent { path },
            ),
            Outcome::Changed(Err(why)) => finish(change_response(Err(why))),
            _ => refuse_unexpected(),
        },
        Stage::ReadingChanged { path, document } => match outcome {
            Outcome::Content(Ok(content)) => {
                let version = document.version;
                (
                    Stage::NotifyingChanged { document },
                    Action::NotifyChanged { path, content, version },
                )
            },
            Outcome::Content(Err(why)) => finish(content_failure_response(why.as_str())),
            _ => refuse_unexpected(),
        },
        Stage::NotifyingChanged { document } => match outcome {
            Outcome::Done(_) => finish(change_response(Ok(document))),
            _ => refuse_unexpected(),
        },
        Stage::ReadingForSave { path, version } => match outcome {
            Outcome::Content(Ok(content)) => (
                Stage::Saving { path: path.clone(), content },
                Action::SaveDocument { document: VersionedDocument { uri: path, version } },
            ),
            Outcome::Content(Err(why)) => finish(content_failure_response(why.as_str())),
            _ => refuse_unexpected(),
        },
        Stage::Saving { path, content } => match outcome {
            Outcome::Saved(Ok(document)) => {
                let version = document.version;
                (
                    Stage::NotifyingSaved { document },
                    Action::NotifySaved { path, content, version },
                )
            },
            Outcome::Saved(Err(why)) => finish(save_response(Err(why))),
            _ => refuse_unexpected(),
        },
        Stage::NotifyingSaved { document } => match outcome {
            Outcome::Done(_) => finish(save_response(Ok(document))),
            _ => refuse_unexpected(),
        },
        Stage::Asking { query } => match outcome {
            Outcome::Answer(answer) => finish(lsp_response(query, answer)),
            _ => refuse_unexpected(),
        },
        Stage::CreatingTerminal => match outcome {
            Outcome::Created(created) => finish(terminal_created_response(created)),
            _ => refuse_unexpected(),
        },
        Stage::WritingTerminal => match outcome {
            Outcome::Done(written) => finish(terminal_write_response(written)),
            _ => refuse_unexpected(),
        },
        Stage::ResizingTerminal => match outcome {
            Outcome::Done(resized) => finish(terminal_resize_response(resized)),
            _ => refuse_unexpected(),
        },
        Stage::ClosingTerminal { id } => match outcome {
            Outcome::Done(closed) => finish(terminal_closed_response(id, closed)),
            _ => refuse_unexpected(),
        },
        Stage::Searching => match outcome {
            Outcome::Done(started) => finish(search_response(started)),
            _ => refuse_unexpected(),
        },
        Stage::Cancelling => match outcome {
            Outcome::Done(_) => finish(ServerMessage::Success {  }),
            _ => refuse_unexpected(),
        },
        Stage::Finished => refuse_unexpected(),
    }
}

} // verus!

//! The session multiplexer's rules: the messages that go between client and
//! server, and which message answers which outcome.

use vstd::prelude::*;
use vstd::string::StringExecFns;
use crate::file_system::directory_manager::FileNode;
use crate::file_system::document_manager::DiffChange;
use crate::file_system::document_manager::DocumentMetadata;
use crate::file_system::document_manager::DocumentState;
use crate::file_system::document_manager::VersionedDocument;
use crate::file_system::event_batcher::EventBatcher;
use crate::file_system::file_event::FileEvent;
use crate::lsp::messages::lit;
use crate::lsp::types::LspConfiguration;
use crate::lsp::types::Position;
use crate::search::types::SearchMessage;
use crate::search::types::SearchResultItem;
use crate::search::types::SearchStatus;
use crate::terminal::types::TerminalMessage;
use crate::utils::path_utils::check_file;
use crate::utils::path_utils::PathError;

verus! {

/// The port that the server listens on unless told otherwise.
pub const DEFAULT_PORT: u16 = 8080;

/// How many file events a session collects before it sends them on.
pub const EVENT_BUFFER_SIZE: usize = 100;

/// How long a session holds file events back, in milliseconds.
pub const EVENT_FLUSH_MS: u64 = 100;

/// What a client asks for.
#[derive(Clone, Debug, PartialEq, Eq)]
pub enum ClientMessage {
    GetDirectory { path: String },
    RefreshDirectory { path: String },
    OpenFile { path: String },
    CloseFile { path: String },
    ChangeFile { document: VersionedDocument, changes: Vec<DiffChange> },
    SaveFile { document: VersionedDocument },
    Completion { path: String, position: Position },
    Hover { path: String, position: Position },
    Definition { path: String, position: Position },
    CreateTerminal { cols: u16, rows: u16 },
    ResizeTerminal { id: String, cols: u16, rows: u16 },
    WriteTerminal { id: String, data: Vec<u8> },
    CloseTerminal { id: String },
    Search { id: String, query: String, search_filename_only: bool },
    CancelSearch { id: String },
}

/// What the server tells a client. What a language server answered goes out
/// as the JSON it came in.
#[derive(Debug, PartialEq, Eq)]
pub enum ServerMessage {
    /// Nothing to tell: this message never goes over the wire.
    Success {  },
    DirectoryContent { path: String, content: Vec<FileNode> },
    FileSystemEvents { events: Vec<FileEvent> },
    DocumentPreview { path: String, content: String, metadata: DocumentMetadata },
    DocumentChunk { path: String, content: Vec<u8>, offset: u64 },
    DocumentContent { path: String, content: String, metadata: DocumentMetadata, version: i32 },
    SaveSuccess { document: VersionedDocument },
    ChangeSuccess { document: VersionedDocument },
    CompletionResponse { completions: Vec<u8> },
    HoverResponse { hover: Vec<u8> },
    DefinitionResponse { locations: Vec<u8> },
    Error { message: String },
    TerminalCreated { terminal_id: String },
    TerminalOutput { terminal_id: String, data: Vec<u8> },
    TerminalClosed { id: String },
    TerminalError { terminal_id: String, error: String },
    SearchStatus { status: SearchStatus },
    SearchResults { search_id: String, items: Vec<SearchResultItem>, is_complete: bool },
}

/// Which of the three position requests a reply answers.
#[derive(Clone, Copy, Debug, PartialEq, Eq, Structural)]
pub enum LspQuery {
    Completion,
    Hover,
    Definition,
}

/// Whether `message` goes over the wire: every message but `Success`.
pub fn is_sent(message: &ServerMessage) -> (r: bool)
    ensures
        r == !(message is Success),
{
    match message {
        ServerMessage::Success {  } => false,
        _ => true,
    }
}

/// The text of an error: what failed, a colon, and why.
pub open spec fn error_text(what: Seq<char>, why: Seq<char>) -> Seq<char> {
    what + ": "@ + why
}

/// Whether `message` is the error that reports that `what` failed because of
/// `why`.
pub open spec fn is_error(message: ServerMessage, what: Seq<char>, why: Seq<char>) -> bool {
    message matches ServerMessage::Error { message: text } && text@ == error_text(what, why)
}

/// Whether `message` answers the position request `query` with `answer`: with
/// what the language server answered, with the empty answer where it
/// answered nothing, or with the error as it stands.
pub open spec fn is_lsp_reply(
    message: ServerMessage,
    query: LspQuery,
    answer: Result<Option<Vec<u8>>, String>,
) -> bool {
    match answer {
        Err(why) => message matches ServerMessage::Error { message: text } && text == why,
        Ok(found) => {
            let body = match found {
                Some(bytes) => bytes@,
                None => empty_answer(query),
            };
            match query {
                LspQuery::Completion => message matches ServerMessage::CompletionResponse {
                    completions,
                } && completions@ == body,
                LspQuery::Hover => message matches ServerMessage::HoverResponse { hover } && hover@
                    == body,
                LspQuery::Definition => message matches ServerMessage::DefinitionResponse {
                    locations,
                } && locations@ == body,
            }
        },
    }
}

/// The error message that reports that `what` failed because of `why`.
pub fn error_response(what: &str, why: &str) -> (r: ServerMessage)
    ensures
        r matches ServerMessage::Error { message } && message@ == error_text(what@, why@),
{
    let mut message = String::from_str(what);
    message.append(": ");
    message.append(why);
    ServerMessage::Error { message }
}

/// The answer to `GetDirectory` and `RefreshDirectory` for the directory at
/// `path`: its listing, or why it could not be had.
pub fn directory_response(path: String, listing: Result<Vec<FileNode>, String>, refresh: bool) -> (r:
    ServerMessage)
    ensures
        match listing {
            Ok(nodes) => r matches ServerMessage::DirectoryContent { path: p, content } && p
                == path && content == nodes,
            Err(why) => r matches ServerMessage::Error { message } && message@ == error_text(
                if refresh {
                    "Failed to refresh directory"@
                } else {
                    "Failed to load directory"@
                },
                why@,
            ),
        },
{
    match listing {
        Ok(content) => ServerMessage::DirectoryContent { path, content },
        Err(why) => if refresh {
            error_response("Failed to refresh directory", why.as_str())
        } else {
            error_response("Failed to load directory", why.as_str())
        },
    }
}

/// Whether the file that `OpenFile` names can be opened: the error to answer
/// where nothing exists at the path or what exists is not a file.
pub fn check_openable(requested: &str, exists: bool, is_file: bool) -> (r: Option<ServerMessage>)
    ensures
        exists && is_file ==> r is None,
        !exists ==> (r matches Some(ServerMessage::Error { message }) && message@ == error_text(
            "File does not exist"@,
            requested@,
        )),
        exists && !is_file ==> (r matches Some(ServerMessage::Error { message }) && message@
            == error_text("Path is not a file"@, requested@)),
{
    match check_file(exists, is_file) {
        Ok(_) => None,
        Err(PathError::NotAFile) => Some(error_response("Path is not a file", requested)),
        Err(_) => Some(error_response("File does not exist", requested)),
    }
}

/// The answer to `OpenFile` for the file at `path`.
pub fn open_response(path: String, opened: Result<(String, DocumentMetadata, i32), String>) -> (r:
    ServerMessage)
    ensures
        match opened {
            Ok((text, data, number)) => r matches ServerMessage::DocumentContent {
                path: p,
                content,
                metadata,
                version,
            } && p == path && content == text && metadata == data && version == number,
            Err(why) => r matches ServerMessage::Error { message } && message@ == error_text(
                "Failed to open file"@,
                why@,
            ),
        },
{
    match opened {
        Ok((content, metadata, version)) => ServerMessage::DocumentContent {
            path,
            content,
            metadata,
            version,
        },
        Err(why) => error_response("Failed to open file", why.as_str()),
    }
}

/// Whether the file that `CloseFile` names can be closed: the error to answer
/// where the document is not known or not open.
pub fn check_closable(requested: &str, state: Option<DocumentState>) -> (r: Option<ServerMessage>)
    ensures
        match state {
            Some(s) => if s.is_open {
                r is None
            } else {
                r matches Some(ServerMessage::Error { message }) && message@ == error_text(
                    "File was not open"@,
                    requested@,
                )
            },
            None => r matches Some(ServerMessage::Error { message }) && message@ == error_text(
                "Error processing request"@,
                "Failed to get document state: Document state not found"@,
            ),
        },
{
    match state {
        Some(s) => if s.is_open {
            None
        } else {
            Some(error_response("File was not open", requested))
        },
        None => Some(
            error_response(
                "Error processing request",
                "Failed to get document state: Document state not found",
            ),
        ),
    }
}

/// The answer to `ChangeFile`.
pub fn change_response(changed: Result<VersionedDocument, String>) -> (r: ServerMessage)
    ensures
        match changed {
            Ok(doc) => r matches ServerMessage::ChangeSuccess { document } && document == doc,
            Err(why) => r matches ServerMessage::Error { message } && message@ == error_text(
                "Failed to apply changes"@,
                why@,
            ),
        },
{
    match changed {
        Ok(document) => ServerMessage::ChangeSuccess { document },
        Err(why) => error_response("Failed to apply changes", why.as_str()),
    }
}

/// The answer to `SaveFile`.
pub fn save_response(saved: Result<VersionedDocument, String>) -> (r: ServerMessage)
    ensures
        match saved {
            Ok(doc) => r matches ServerMessage::SaveSuccess { document } && document == doc,
            Err(why) => r matches ServerMessage::Error { message } && message@ == error_text(
                "Failed to save document"@,
                why@,
            ),
        },
{
    match saved {
        Ok(document) => ServerMessage::SaveSuccess { document },
        Err(why) => error_response("Failed to save document", why.as_str()),
    }
}

/// The answer where the text of a document could not be had.
pub fn content_failure_response(why: &str) -> (r: ServerMessage)
    ensures
        r matches ServerMessage::Error { message } && message@ == error_text(
            "Failed to get document content"@,
            why@,
        ),
{
    error_response("Failed to get document content", why)
}

/// What a position request is answered with where the language server has
/// nothing to say: an empty completion list, an empty hover text, no location.
pub open spec fn empty_answer(query: LspQuery) -> Seq<u8> {
    match query {
        LspQuery::Completion => lit("{\"isIncomplete\":false,\"items\":[]}"@),
        LspQuery::Hover => lit("{\"contents\":\"\"}"@),
        LspQuery::Definition => lit("[]"@),
    }
}

/// The answer to `Completion`, `Hover` and `Definition`: what the language
/// server answered, the empty answer where it answered nothing or no server
/// is there, or the error as it stands.
pub fn lsp_response(query: LspQuery, answer: Result<Option<Vec<u8>>, String>) -> (r: ServerMessage)
    ensures
        is_lsp_reply(r, query, answer),
{
    match answer {
        Err(message) => ServerMessage::Error { message },
        Ok(found) => {
            let body = match found {
                Some(bytes) => bytes,
                None => {
                    let text = match query {
                        LspQuery::Completion => "{\"isIncomplete\":false,\"items\":[]}",
                        LspQuery::Hover => "{\"contents\":\"\"}",
                        LspQuery::Definition => "[]",
                    };
                    let mut bytes: Vec<u8> = Vec::new();
                    crate::lsp::framing::push_bytes(&mut bytes, text.as_bytes());
                    bytes
                },
            };
            match query {
                LspQuery::Completion => ServerMessage::CompletionResponse { completions: body },
                LspQuery::Hover => ServerMessage::HoverResponse { hover: body },
                LspQuery::Definition => ServerMessage::DefinitionResponse { locations: body },
            }
        },
    }
}

/// The answer to `CreateTerminal`.
pub fn terminal_created_response(created: Result<String, String>) -> (r: ServerMessage)
    ensures
        match created {
            Ok(id) => r matches ServerMessage::TerminalCreated { terminal_id } && terminal_id
                == id,
            Err(why) => r matches ServerMessage::Error { message } && message@ == error_text(
                "Failed to create terminal"@,
                why@,
            ),
        },
{
    match created {
        Ok(terminal_id) => ServerMessage::TerminalCreated { terminal_id },
        Err(why) => error_response("Failed to create terminal", why.as_str()),
    }
}

/// The answer to `WriteTerminal`: none where the write went through.
pub fn terminal_write_response(written: Result<(), String>) -> (r: ServerMessage)
    ensures
        match written {
            Ok(_) => r is Success,
            Err(why) => r matches ServerMessage::Error { message } && message@ == error_text(
                "Failed to write to terminal"@,
                why@,
            ),
        },
{
    match written {
        Ok(_) => ServerMessage::Success {  },
        Err(why) => error_response("Failed to write to terminal", why.as_str()),
    }
}

/// The answer to `ResizeTerminal`: none where the terminal was resized.
pub fn terminal_resize_response(resized: Result<(), String>) -> (r: ServerMessage)
    ensures
        match resized {
            Ok(_) => r is Success,
            Err(why) => r matches ServerMessage::Error { message } && message@ == error_text(
                "Failed to resize terminal"@,
                why@,
            ),
        },
{
    match resized {
        Ok(_) => ServerMessage::Success {  },
        Err(why) => error_response("Failed to resize terminal", why.as_str()),
    }
}

/// The answer to `CloseTerminal` for the terminal `id`.
pub fn terminal_closed_response(id: String, closed: Result<(), String>) -> (r: ServerMessage)
    ensures
        match closed {
            Ok(_) => r matches ServerMessage::TerminalClosed { id: which } && which == id,
            Err(why) => r matches ServerMessage::Error { message } && message@ == error_text(
                "Failed to close terminal"@,
                why@,
            ),
        },
{
    match closed {
        Ok(_) => ServerMessage::TerminalClosed { id },
        Err(why) => error_response("Failed to close terminal", why.as_str()),
    }
}

/// Whether a `Search` request asks for a search of the files' content.
pub fn searches_content(search_filename_only: bool) -> (r: bool)
    ensures
        r == !search_filename_only,
{
    !search_filename_only
}

/// The answer to `Search`: none where the search was started.
pub fn search_response(started: Result<(), String>) -> (r: ServerMessage)
    ensures
        match started {
            Ok(_) => r is Success,
            Err(why) => r matches ServerMessage::Error { message } && message@ == error_text(
                "Search failed"@,
                why@,
            ),
        },
{
    match started {
        Ok(_) => ServerMessage::Success {  },
        Err(why) => error_response("Search failed", why.as_str()),
    }
}

/// The answer to a request that could not be read.
pub fn malformed_request_response(why: &str) -> (r: ServerMessage)
    ensures
        r matches ServerMessage::Error { message } && message@ == error_text(
            "Invalid message format"@,
            why@,
        ),
{
    error_response("Invalid message format", why)
}

/// The answer to a request whose handling failed.
pub fn failed_request_response(why: &str) -> (r: ServerMessage)
    ensures
        r matches ServerMessage::Error { message } && message@ == error_text(
            "Error processing request"@,
            why@,
        ),
{
    error_response("Error processing request", why)
}

/// What a client is told of an event on the terminal bus: output and errors
/// go on, everything else stays inside.
pub fn terminal_event_message(event: TerminalMessage) -> (r: Option<ServerMessage>)
    ensures
        match event {
            TerminalMessage::Output { terminal_id, data } => r matches Some(
                ServerMessage::TerminalOutput { terminal_id: id, data: bytes },
            ) && id == terminal_id && bytes == data,
            TerminalMessage::Error { terminal_id, error } => r matches Some(
                ServerMessage::TerminalError { terminal_id: id, error: text },
            ) && id == terminal_id && text == error,
            _ => r is None,
        },
{
    match event {
        TerminalMessage::Output { terminal_id, data } => Some(
            ServerMessage::TerminalOutput { terminal_id, data },
        ),
        TerminalMessage::Error { terminal_id, error } => Some(
            ServerMessage::TerminalError { terminal_id, error },
        ),
        _ => None,
    }
}

/// The text that reports a failed search.
pub open spec fn search_error_text(search_id: Seq<char>, error: Seq<char>) -> Seq<char> {
    "Search error ("@ + search_id + "): "@ + error
}

/// What a client is told of an event on the search bus.
pub fn search_event_message(event: SearchMessage) -> (r: ServerMessage)
    ensures
        match event {
            SearchMessage::Results { search_id, items, is_complete } => r matches
            ServerMessage::SearchResults { search_id: id, items: found, is_complete: complete }
                && id == search_id && found == items && complete == is_complete,
            SearchMessage::Error { search_id, error } => r matches ServerMessage::Error {
                message,
            } && message@ == search_error_text(search_id@, error@),
        },
{
    match event {
        SearchMessage::Results { search_id, items, is_complete } => ServerMessage::SearchResults {
            search_id,
            items,
            is_complete,
        },
        SearchMessage::Error { search_id, error } => {
            let mut message = String::from_str("Search error (");
            message.append(search_id.as_str());
            message.append("): ");
            message.append(error.as_str());
            ServerMessage::Error { message }
        },
    }
}

/// The language servers that the server knows of: `rust-analyzer` for files
/// that end in `rs`.
pub fn default_lsp_configurations() -> (r: Vec<LspConfiguration>)
    ensures
        r@.len() == 1,
        r@[0].name@ == "rust-analyzer"@,
        r@[0].file_extensions.deep_view() == seq!["rs"@],
        r@[0].server_path@ == "rust-analyzer"@,
        r@[0].server_args@.len() == 0,
        r@[0].initialization_options is None,
{
    let mut file_extensions: Vec<String> = Vec::new();
    file_extensions.push("rs".to_owned());
    assert(file_extensions.deep_view() =~= seq!["rs"@]);
    let mut configs: Vec<LspConfiguration> = Vec::new();
    configs.push(
        LspConfiguration {
            name: "rust-analyzer".to_owned(),
            file_extensions,
            server_path: "rust-analyzer".to_owned(),
            server_args: Vec::new(),
            initialization_options: None,
        },
    );
    configs
}

/// What an event buffer holds: the events that wait, and when it was last
/// flushed.
pub struct Held {
    pub pending: Seq<FileEvent>,
    pub last_flush: nat,
}

/// Whether no flush time has passed at `now_ms` since `last_flush`.
pub open spec fn in_time(last_flush: nat, now_ms: u64) -> bool {
    !(now_ms >= last_flush && now_ms - last_flush >= EVENT_FLUSH_MS)
}

/// What an event that comes in at `now_ms` does to a buffer: where the buffer
/// is then full or the flush time has passed, all that it holds goes out.
pub open spec fn pushed(held: Held, event: FileEvent, now_ms: u64) -> (Held, Option<
    Seq<FileEvent>,
>) {
    let all = held.pending.push(event);
    if EventBuffer::due(all.len(), held.last_flush, now_ms) {
        (Held { pending: Seq::empty(), last_flush: now_ms as nat }, Some(all))
    } else {
        (Held { pending: all, last_flush: held.last_flush }, None)
    }
}

/// What the periodic check at `now_ms` does to a buffer.
pub open spec fn ticked(held: Held, now_ms: u64) -> (Held, Option<Seq<FileEvent>>) {
    if held.pending.len() > 0 && EventBuffer::due(0, held.last_flush, now_ms) {
        (Held { pending: Seq::empty(), last_flush: now_ms as nat }, Some(held.pending))
    } else {
        (held, None)
    }
}

/// What a run of events does to a buffer, the event at position `i` coming in
/// at `times[i]`: what the buffer holds in the end, and the batches that went
/// out on the way, in order.
pub open spec fn pushed_all(held: Held, events: Seq<FileEvent>, times: Seq<u64>) -> (Held, Seq<
    Seq<FileEvent>,
>)
    recommends
        events.len() == times.len(),
    decreases events.len(),
{
    if events.len() == 0 {
        (held, Seq::empty())
    } else {
        let (before, batches) = pushed_all(held, events.drop_last(), times.drop_last());
        let (after, batch) = pushed(before, events.last(), times.last());
        (
            after,
            match batch {
                Some(b) => batches.push(b),
                None => batches,
            },
        )
    }
}

/// A run of events is taken in piece by piece.
pub proof fn lemma_pushed_all_in_two(
    held: Held,
    first: Seq<FileEvent>,
    first_times: Seq<u64>,
    second: Seq<FileEvent>,
    second_times: Seq<u64>,
)
    requires
        first.len() == first_times.len(),
        second.len() == second_times.len(),
    ensures
        pushed_all(held, first + second, first_times + second_times) == ({
            let (middle, batches) = pushed_all(held, first, first_times);
            let (end, more) = pushed_all(middle, second, second_times);
            (end, batches + more)
        }),
    decreases second.len(),
{
    let (middle, batches) = pushed_all(held, first, first_times);
    if second.len() == 0 {
        assert(first + second =~= first);
        assert(first_times + second_times =~= first_times);
        assert(batches + Seq::<Seq<FileEvent>>::empty() =~= batches);
    } else {
        lemma_pushed_all_in_two(
            held,
            first,
            first_times,
            second.drop_last(),
            second_times.drop_last(),
        );
        assert((first + second).drop_last() =~= first + second.drop_last());
        assert((first_times + second_times).drop_last() =~= first_times
            + second_times.drop_last());
        let (near, some) = pushed_all(middle, second.drop_last(), second_times.drop_last());
        let (end, batch) = pushed(near, second.last(), second_times.last());
        if batch is Some {
            assert((batches + some).push(batch->Some_0) =~= batches + some.push(batch->Some_0));
        }
    }
}

/// Events that come in time and do not fill the buffer are all held back, in
/// the order they came.
pub proof fn lemma_quiet_run(held: Held, events: Seq<FileEvent>, times: Seq<u64>)
    requires
        events.len() == times.len(),
        held.pending.len() + events.len() < EVENT_BUFFER_SIZE,
        forall|i: int| 0 <= i < times.len() ==> in_time(held.last_flush, #[trigger] times[i]),
    ensures
        pushed_all(held, events, times) == (
            Held { pending: held.pending + events, last_flush: held.last_flush },
            Seq::<Seq<FileEvent>>::empty(),
        ),
    decreases events.len(),
{
    if events.len() == 0 {
        assert(held.pending + events =~= held.pending);
    } else {
        let shorter = times.drop_last();
        assert forall|i: int| 0 <= i < shorter.len() implies in_time(
            held.last_flush,
            #[trigger] shorter[i],
        ) by {
            assert(shorter[i] == times[i]);
        }
        lemma_quiet_run(held, events.drop_last(), shorter);
        assert(in_time(held.last_flush, times[times.len() - 1]));
        assert((held.pending + events.drop_last()).push(events.last()) =~= held.pending
            + events);
    }
}

/// A burst goes out in two batches: of 150 events that come into an empty
/// buffer in time, the first hundred go out together when the hundredth
/// comes, the other fifty are held back, and the periodic check sends them,
/// in order, once the flush time has passed. Nothing else goes out, and no
/// batch is empty.
pub proof fn lemma_burst_in_two_batches(
    held: Held,
    events: Seq<FileEvent>,
    times: Seq<u64>,
    check_at: u64,
)
    requires
        held.pending.len() == 0,
        events.len() == 150,
        times.len() == 150,
        forall|i: int| 0 <= i < 100 ==> in_time(held.last_flush, #[trigger] times[i]),
        forall|i: int| 100 <= i < 150 ==> in_time(times[99] as nat, #[trigger] times[i]),
        check_at >= times[99] + EVENT_FLUSH_MS,
    ensures
        pushed_all(held, events, times).1 == seq![events.take(100)],
        pushed_all(held, events, times).0.pending == events.skip(100),
        ticked(pushed_all(held, events, times).0, check_at) == (
            Held { pending: Seq::empty(), last_flush: check_at as nat },
            Some(events.skip(100)),
        ),
{
    let quiet = events.take(99);
    let quiet_times = times.take(99);
    assert forall|i: int| 0 <= i < quiet_times.len() implies in_time(
        held.last_flush,
        #[trigger] quiet_times[i],
    ) by {
        assert(quiet_times[i] == times[i]);
    }
    lemma_quiet_run(held, quiet, quiet_times);
    assert(held.pending + quiet =~= quiet);
    // The hundredth event fills the buffer.
    let hundred = events.take(100);
    let hundred_times = times.take(100);
    assert(hundred.drop_last() =~= quiet);
    assert(hundred_times.drop_last() =~= quiet_times);
    assert(quiet.push(hundred.last()) =~= hundred);
    let flushed = Held { pending: Seq::empty(), last_flush: times[99] as nat };
    assert(pushed_all(held, hundred, hundred_times) == (flushed, seq![hundred])) by {
        assert(Seq::<Seq<FileEvent>>::empty().push(hundred) =~= seq![hundred]);
    }
    // The other fifty come in time and are held back.
    let rest = events.skip(100);
    let rest_times = times.skip(100);
    assert forall|i: int| 0 <= i < rest_times.len() implies in_time(
        flushed.last_flush,
        #[trigger] rest_times[i],
    ) by {
        assert(rest_times[i] == times[i + 100]);
    }
    lemma_quiet_run(flushed, rest, rest_times);
    assert(flushed.pending + rest =~= rest);
    lemma_pushed_all_in_two(held, hundred, hundred_times, rest, rest_times);
    assert(hundred + rest =~= events);
    assert(hundred_times + rest_times =~= times);
    assert(seq![hundred] + Seq::<Seq<FileEvent>>::empty() =~= seq![hundred]);
}

/// The file events that one session holds back for its client.
#[derive(Debug)]
pub struct EventBuffer {
    batcher: EventBatcher,
}

impl EventBuffer {
    /// The events that wait to be sent, in the order they came.
    pub closed spec fn pending(&self) -> Seq<FileEvent> {
        self.batcher.pending()
    }

    /// When the buffer was last flushed.
    pub closed spec fn last_flush(&self) -> nat {
        self.batcher.last_emit()
    }

    /// What the buffer holds.
    pub open spec fn held(&self) -> Held {
        Held { pending: self.pending(), last_flush: self.last_flush() }
    }

    /// The buffer's invariant: it flushes at `EVENT_BUFFER_SIZE` events and
    /// after `EVENT_FLUSH_MS`.
    pub closed spec fn wf(&self) -> bool {
        &&& self.batcher.batch_size() == EVENT_BUFFER_SIZE
        &&& self.batcher.batch_timeout() == EVENT_FLUSH_MS
    }

    /// Whether a buffer of `held` events, last flushed at `last_flush`, is due
    /// at `now_ms`.
    pub open spec fn due(held: nat, last_flush: nat, now_ms: u64) -> bool {
        held >= EVENT_BUFFER_SIZE || (now_ms >= last_flush && now_ms - last_flush
            >= EVENT_FLUSH_MS)
    }

    /// An empty buffer whose clock starts at `now_ms`.
    pub fn new(now_ms: u64) -> (r: Self)
        ensures
            r.wf(),
            r.pending() == Seq::<FileEvent>::empty(),
            r.last_flush() == now_ms,
    {
        EventBuffer { batcher: EventBatcher::new(EVENT_BUFFER_SIZE, EVENT_FLUSH_MS, now_ms) }
    }

    /// Takes in a file event. Where the buffer is then full, or the flush time
    /// has passed, all that it holds goes out as one message.
    pub fn push(&mut self, event: FileEvent, now_ms: u64) -> (r: Option<ServerMessage>)
        requires
            old(self).wf(),
        ensures
            final(self).wf(),
            final(self).held() == pushed(old(self).held(), event, now_ms).0,
            match pushed(old(self).held(), event, now_ms).1 {
                Some(batch) => r matches Some(ServerMessage::FileSystemEvents { events })
                    && events@ == batch,
                None => r is None,
            },
            Self::due(old(self).pending().len() + 1, old(self).last_flush(), now_ms) ==> (r matches Some(
                ServerMessage::FileSystemEvents { events },
            ) && events@ == old(self).pending().push(event) && final(self).pending() == Seq::<
                FileEvent,
            >::empty() && final(self).last_flush() == now_ms),
            !Self::due(old(self).pending().len() + 1, old(self).last_flush(), now_ms) ==> r is None
                && final(self).pending() == old(self).pending().push(event) && final(self).last_flush() == old(self).last_flush(),
    {
        match self.batcher.add_event(event, now_ms) {
            Some(events) => Some(ServerMessage::FileSystemEvents { events }),
            None => None,
        }
    }

    /// The periodic check: what the buffer holds goes out where it is not
    /// empty and the flush time has passed.
    pub fn flush_if_due(&mut self, now_ms: u64) -> (r: Option<ServerMessage>)
        requires
            old(self).wf(),
        ensures
            final(self).wf(),
            final(self).held() == ticked(old(self).held(), now_ms).0,
            match ticked(old(self).held(), now_ms).1 {
                Some(batch) => r matches Some(ServerMessage::FileSystemEvents { events })
                    && events@ == batch,
                None => r is None,
            },
            old(self).pending().len() > 0 && Self::due(0, old(self).last_flush(), now_ms) ==> (r matches Some(
                ServerMessage::FileSystemEvents { events },
            ) && events@ == old(self).pending() && final(self).pending() == Seq::<
                FileEvent,
            >::empty() && final(self).last_flush() == now_ms),
            !(old(self).pending().len() > 0 && Self::due(0, old(self).last_flush(), now_ms)) ==> r is None
                && final(self).pending() == old(self).pending() && final(self).last_flush() == old(self).last_flush(),
    {
        match self.batcher.check_timeout(now_ms) {
            Some(events) => Some(ServerMessage::FileSystemEvents { events }),
            None => None,
        }
    }
}

/// What a session takes in between two writes to its client.
#[derive(Debug)]
pub enum SessionEvent {
    /// The answer to a request of the client.
    Response(ServerMessage),
    /// An event of the file watcher.
    FileSystem(FileEvent),
    /// The periodic flush timer has fired.
    Tick,
    /// An event on the terminal bus.
    Terminal(TerminalMessage),
    /// An event on the search bus.
    Search(SearchMessage),
}

/// One client session: what it still holds back for its client.
#[derive(Debug)]
pub struct Session {
    events: EventBuffer,
}

impl Session {
    /// The file events that the session holds back.
    pub closed spec fn buffer(&self) -> EventBuffer {
        self.events
    }

    /// A session that starts at `now_ms` and holds nothing back.
    pub fn new(now_ms: u64) -> (r: Self)
        ensures
            r.buffer().wf(),
            r.buffer().pending() == Seq::<FileEvent>::empty(),
            r.buffer().last_flush() == now_ms,
    {
        Session { events: EventBuffer::new(now_ms) }
    }

    /// Takes in one event at `now_ms` and returns the message to write to the
    /// client, if there is one.
    ///
    /// An answer is written unless it is `Success`. File events are collected
    /// and written as one batch when the buffer is full or the flush time has
    /// passed. Terminal output and terminal errors are written one by one;
    /// other terminal events stay inside. Search events are written batch by
    /// batch.
    pub fn handle_event(&mut self, event: SessionEvent, now_ms: u64) -> (r: Option<ServerMessage>)
        requires
            old(self).buffer().wf(),
        ensures
            final(self).buffer().wf(),
            match event {
                SessionEvent::Response(message) => {
                    &&& final(self).buffer() == old(self).buffer()
                    &&& r == if message is Success {
                        None
                    } else {
                        Some(message)
                    }
                },
                SessionEvent::FileSystem(file_event) => {
                    let held = old(self).buffer().pending().push(file_event);
                    &&& final(self).buffer().held() == pushed(
                        old(self).buffer().held(),
                        file_event,
                        now_ms,
                    ).0
                    &&& match pushed(old(self).buffer().held(), file_event, now_ms).1 {
                        Some(batch) => r matches Some(ServerMessage::FileSystemEvents { events })
                            && events@ == batch,
                        None => r is None,
                    }
                    &&&
                    if EventBuffer::due(held.len(), old(self).buffer().last_flush(), now_ms) {
                        &&& r matches Some(ServerMessage::FileSystemEvents { events })
                        &&& events@ == held
                        &&& final(self).buffer().pending() == Seq::<FileEvent>::empty()
                        &&& final(self).buffer().last_flush() == now_ms
                    } else {
                        &&& r is None
                        &&& final(self).buffer().pending() == held
                        &&& final(self).buffer().last_flush() == old(self).buffer().last_flush()
                    }
                },
                SessionEvent::Tick => {
                    let held = old(self).buffer().pending();
                    &&& final(self).buffer().held() == ticked(old(self).buffer().held(), now_ms).0
                    &&& match ticked(old(self).buffer().held(), now_ms).1 {
                        Some(batch) => r matches Some(ServerMessage::FileSystemEvents { events })
                            && events@ == batch,
                        None => r is None,
                    }
                    &&&
                    if held.len() > 0 && EventBuffer::due(
                        0,
                        old(self).buffer().last_flush(),
                        now_ms,
                    ) {
                        &&& r matches Some(ServerMessage::FileSystemEvents { events })
                        &&& events@ == held
                        &&& final(self).buffer().pending() == Seq::<FileEvent>::empty()
                        &&& final(self).buffer().last_flush() == now_ms
                    } else {
                        &&& r is None
                        &&& final(self).buffer().pending() == held
                        &&& final(self).buffer().last_flush() == old(self).buffer().last_flush()
                    }
                },
                SessionEvent::Terminal(terminal_event) => {
                    &&& final(self).buffer() == old(self).buffer()
                    &&& match terminal_event {
                        TerminalMessage::Output { terminal_id, data } => r matches Some(
                            ServerMessage::TerminalOutput { terminal_id: id, data: bytes },
                        ) && id == terminal_id && bytes == data,
                        TerminalMessage::Error { terminal_id, error } => r matches Some(
                            ServerMessage::TerminalError { terminal_id: id, error: text },
                        ) && id == terminal_id && text == error,
                        _ => r is None,
                    }
                },
                SessionEvent::Search(search_event) => {
                    &&& final(self).buffer() == old(self).buffer()
                    &&& match search_event {
                        SearchMessage::Results { search_id, items, is_complete } => r matches Some(
                            ServerMessage::SearchResults {
                                search_id: id,
                                items: found,
                                is_complete: complete,
                            },
                        ) && id == search_id && found == items && complete == is_complete,
                        SearchMessage::Error { search_id, error } => r matches Some(
                            ServerMessage::Error { message },
                        ) && message@ == search_error_text(search_id@, error@),
                    }
                },
            },
    {
        match event {
            SessionEvent::Response(message) => {
                if is_sent(&message) {
                    Some(message)
                } else {
                    None
                }
            },
            SessionEvent::FileSystem(file_event) => self.events.push(file_event, now_ms),
            SessionEvent::Tick => self.events.flush_if_due(now_ms),
            SessionEvent::Terminal(terminal_event) => terminal_event_message(terminal_event),
            SessionEvent::Search(search_event) => Some(search_event_message(search_event)),
        }
    }
}

} // verus!

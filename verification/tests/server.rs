use editor_core::file_system::directory_manager::FileNode;
use editor_core::file_system::document_manager::DocumentMetadata;
use editor_core::file_system::document_manager::DocumentState;
use editor_core::file_system::document_manager::FileEncoding;
use editor_core::file_system::document_manager::FileType;
use editor_core::file_system::document_manager::LineEnding;
use editor_core::file_system::document_manager::VersionedDocument;
use editor_core::file_system::file_event::FileEvent;
use editor_core::file_system::file_event::FileMetadata;
use editor_core::search::types::SearchMessage;
use editor_core::search::types::SearchResultItem;
use editor_core::server::change_response;
use editor_core::server::check_closable;
use editor_core::server::check_openable;
use editor_core::server::content_failure_response;
use editor_core::server::default_lsp_configurations;
use editor_core::server::directory_response;
use editor_core::server::error_response;
use editor_core::server::failed_request_response;
use editor_core::server::is_sent;
use editor_core::server::lsp_response;
use editor_core::server::malformed_request_response;
use editor_core::server::open_response;
use editor_core::server::save_response;
use editor_core::server::search_event_message;
use editor_core::server::search_response;
use editor_core::server::searches_content;
use editor_core::server::terminal_closed_response;
use editor_core::server::terminal_created_response;
use editor_core::server::terminal_event_message;
use editor_core::server::terminal_resize_response;
use editor_core::server::terminal_write_response;
use editor_core::server::EventBuffer;
use editor_core::server::LspQuery;
use editor_core::server::ServerMessage;
use editor_core::server::Session;
use editor_core::server::SessionEvent;
use editor_core::server::DEFAULT_PORT;
use editor_core::server::EVENT_BUFFER_SIZE;
use editor_core::server::EVENT_FLUSH_MS;
use editor_core::terminal::types::TerminalMessage;
use editor_core::terminal::types::TerminalSize;

fn error(text: &str) -> ServerMessage {
    ServerMessage::Error { message: text.to_string() }
}

fn created(i: usize) -> FileEvent {
    FileEvent::Created {
        path: format!("/ws/burst/f{}", i),
        timestamp_ms: i as u128,
        metadata: FileMetadata {
            size: 0,
            is_directory: false,
            is_symlink: false,
            created_at: None,
            modified_at: None,
            readonly: false,
        },
    }
}

fn doc(version: i32) -> VersionedDocument {
    VersionedDocument { uri: "/ws/a.txt".to_string(), version }
}

#[test]
fn success_is_never_sent() {
    assert!(!is_sent(&ServerMessage::Success {}));
    assert!(is_sent(&error("x")));
    assert!(is_sent(&ServerMessage::TerminalClosed { id: "t".to_string() }));
    assert!(!is_sent(&terminal_write_response(Ok(()))));
    assert!(!is_sent(&terminal_resize_response(Ok(()))));
    assert!(!is_sent(&search_response(Ok(()))));
}

#[test]
fn errors_say_what_failed_and_why() {
    assert_eq!(error_response("Invalid path", "Path is outside of workspace"), error("Invalid path: Path is outside of workspace"));
    assert_eq!(malformed_request_response("expected value"), error("Invalid message format: expected value"));
    assert_eq!(failed_request_response("boom"), error("Error processing request: boom"));
    assert_eq!(content_failure_response("gone"), error("Failed to get document content: gone"));
}

#[test]
fn directory_replies() {
    let nodes = vec![FileNode::shallow("/ws/src/a.rs".to_string(), false, 3)];
    let same = vec![FileNode::shallow("/ws/src/a.rs".to_string(), false, 3)];
    assert_eq!(
        directory_response("/ws/src".to_string(), Ok(nodes), false),
        ServerMessage::DirectoryContent { path: "/ws/src".to_string(), content: same }
    );
    assert_eq!(
        directory_response("/ws/src".to_string(), Err("denied".to_string()), false),
        error("Failed to load directory: denied")
    );
    assert_eq!(
        directory_response("/ws/src".to_string(), Err("denied".to_string()), true),
        error("Failed to refresh directory: denied")
    );
}

#[test]
fn open_and_close_replies() {
    assert_eq!(check_openable("a.txt", true, true), None);
    assert_eq!(check_openable("a.txt", false, false), Some(error("File does not exist: a.txt")));
    assert_eq!(check_openable("a.txt", false, true), Some(error("File does not exist: a.txt")));
    assert_eq!(check_openable("src", true, false), Some(error("Path is not a file: src")));

    let metadata = DocumentMetadata::from_stat(
        &FileMetadata { size: 2, is_directory: false, is_symlink: false, created_at: None, modified_at: None, readonly: true },
        FileType::Text,
        FileEncoding { encoding: "UTF-8".to_string(), confidence_percent: 90 },
        LineEnding::LF,
    );
    assert_eq!(
        open_response("/ws/a.txt".to_string(), Ok(("hi".to_string(), metadata.clone(), 3))),
        ServerMessage::DocumentContent { path: "/ws/a.txt".to_string(), content: "hi".to_string(), metadata, version: 3 }
    );
    assert_eq!(
        open_response("/ws/a.txt".to_string(), Err("File is too large to load".to_string())),
        error("Failed to open file: File is too large to load")
    );

    let open = DocumentState { is_open: true, version: 0, last_modification: 0, is_dirty: false };
    assert_eq!(check_closable("a.txt", Some(open)), None);
    let closed = DocumentState { is_open: false, ..open };
    assert_eq!(check_closable("a.txt", Some(closed)), Some(error("File was not open: a.txt")));
    assert_eq!(
        check_closable("a.txt", None),
        Some(error("Error processing request: Failed to get document state: Document state not found"))
    );
}

#[test]
fn change_and_save_replies() {
    assert_eq!(change_response(Ok(doc(4))), ServerMessage::ChangeSuccess { document: doc(4) });
    assert_eq!(change_response(Err("conflict".to_string())), error("Failed to apply changes: conflict"));
    assert_eq!(save_response(Ok(doc(4))), ServerMessage::SaveSuccess { document: doc(4) });
    assert_eq!(save_response(Err("disk full".to_string())), error("Failed to save document: disk full"));
}

#[test]
fn language_replies() {
    let body = b"{\"isIncomplete\":true,\"items\":[]}".to_vec();
    assert_eq!(
        lsp_response(LspQuery::Completion, Ok(Some(body.clone()))),
        ServerMessage::CompletionResponse { completions: body }
    );
    assert_eq!(
        lsp_response(LspQuery::Completion, Ok(None)),
        ServerMessage::CompletionResponse { completions: b"{\"isIncomplete\":false,\"items\":[]}".to_vec() }
    );
    assert_eq!(
        lsp_response(LspQuery::Hover, Ok(None)),
        ServerMessage::HoverResponse { hover: b"{\"contents\":\"\"}".to_vec() }
    );
    assert_eq!(
        lsp_response(LspQuery::Definition, Ok(None)),
        ServerMessage::DefinitionResponse { locations: b"[]".to_vec() }
    );
    assert_eq!(lsp_response(LspQuery::Hover, Err("Request timed out".to_string())), error("Request timed out"));
}

#[test]
fn terminal_replies() {
    assert_eq!(
        terminal_created_response(Ok("id-1".to_string())),
        ServerMessage::TerminalCreated { terminal_id: "id-1".to_string() }
    );
    assert_eq!(terminal_created_response(Err("no pty".to_string())), error("Failed to create terminal: no pty"));
    assert_eq!(
        terminal_write_response(Err("Terminal not found".to_string())),
        error("Failed to write to terminal: Terminal not found")
    );
    assert_eq!(terminal_resize_response(Err("x".to_string())), error("Failed to resize terminal: x"));
    assert_eq!(
        terminal_closed_response("id-1".to_string(), Ok(())),
        ServerMessage::TerminalClosed { id: "id-1".to_string() }
    );
    assert_eq!(
        terminal_closed_response("id-1".to_string(), Err("Terminal not found".to_string())),
        error("Failed to close terminal: Terminal not found")
    );
}

#[test]
fn terminal_events_are_forwarded() {
    let output = TerminalMessage::Output { terminal_id: "t".to_string(), data: vec![104, 105] };
    assert_eq!(
        terminal_event_message(output),
        Some(ServerMessage::TerminalOutput { terminal_id: "t".to_string(), data: vec![104, 105] })
    );
    let failed = TerminalMessage::Error { terminal_id: "t".to_string(), error: "eof".to_string() };
    assert_eq!(
        terminal_event_message(failed),
        Some(ServerMessage::TerminalError { terminal_id: "t".to_string(), error: "eof".to_string() })
    );
    let input = TerminalMessage::Input { terminal_id: "t".to_string(), data: vec![] };
    assert_eq!(terminal_event_message(input), None);
    let resize = TerminalMessage::Resize { terminal_id: "t".to_string(), size: TerminalSize { rows: 1, cols: 1 } };
    assert_eq!(terminal_event_message(resize), None);
}

#[test]
fn search_events_are_forwarded() {
    let item = SearchResultItem { path: "/ws/a".to_string(), line_number: 1, content: "x".to_string() };
    let results = SearchMessage::Results { search_id: "s".to_string(), items: vec![item.clone()], is_complete: true };
    assert_eq!(
        search_event_message(results),
        ServerMessage::SearchResults { search_id: "s".to_string(), items: vec![item], is_complete: true }
    );
    let failed = SearchMessage::Error { search_id: "s7".to_string(), error: "index".to_string() };
    assert_eq!(search_event_message(failed), error("Search error (s7): index"));
    assert_eq!(search_response(Err("walk".to_string())), error("Search failed: walk"));
    assert!(searches_content(false));
    assert!(!searches_content(true));
}

#[test]
fn watcher_coalesces() {
    assert_eq!(EVENT_BUFFER_SIZE, 100);
    assert_eq!(EVENT_FLUSH_MS, 100);
    assert_eq!(DEFAULT_PORT, 8080);
    let mut buffer = EventBuffer::new(0);
    let mut batches = Vec::new();
    // 150 files are created within 50 ms.
    for i in 0..150usize {
        if let Some(message) = buffer.push(created(i), (i / 3) as u64) {
            batches.push(message);
        }
    }
    assert_eq!(batches.len(), 1);
    // Nothing goes out before the flush time has passed.
    assert_eq!(buffer.flush_if_due(60), None);
    if let Some(message) = buffer.flush_if_due(150) {
        batches.push(message);
    }
    assert_eq!(buffer.flush_if_due(1000), None);
    let sizes: Vec<usize> = batches
        .iter()
        .map(|m| match m {
            ServerMessage::FileSystemEvents { events } => events.len(),
            other => panic!("unexpected {:?}", other),
        })
        .collect();
    assert_eq!(sizes, vec![100, 50]);
    match &batches[1] {
        ServerMessage::FileSystemEvents { events } => {
            assert_eq!(events[0], created(100));
            assert_eq!(events[49], created(149));
        }
        other => panic!("unexpected {:?}", other),
    }
}

#[test]
fn rust_analyzer_is_configured() {
    let configs = default_lsp_configurations();
    assert_eq!(configs.len(), 1);
    assert_eq!(configs[0].name, "rust-analyzer");
    assert_eq!(configs[0].file_extensions, vec!["rs"]);
    assert_eq!(configs[0].server_path, "rust-analyzer");
    assert!(configs[0].server_args.is_empty());
    assert!(configs[0].initialization_options.is_none());
}

#[test]
fn session_writes_answers_but_not_success() {
    let mut session = Session::new(0);
    assert_eq!(session.handle_event(SessionEvent::Response(ServerMessage::Success {}), 1), None);
    assert_eq!(session.handle_event(SessionEvent::Response(error("x")), 1), Some(error("x")));
}

#[test]
fn session_merges_its_producers() {
    let mut session = Session::new(0);
    // File events are held back, everything else goes out at once.
    assert_eq!(session.handle_event(SessionEvent::FileSystem(created(0)), 10), None);
    let output = TerminalMessage::Output { terminal_id: "t".to_string(), data: vec![1] };
    assert_eq!(
        session.handle_event(SessionEvent::Terminal(output), 20),
        Some(ServerMessage::TerminalOutput { terminal_id: "t".to_string(), data: vec![1] })
    );
    let input = TerminalMessage::Input { terminal_id: "t".to_string(), data: vec![1] };
    assert_eq!(session.handle_event(SessionEvent::Terminal(input), 20), None);
    let results = SearchMessage::Results { search_id: "s".to_string(), items: vec![], is_complete: true };
    assert_eq!(
        session.handle_event(SessionEvent::Search(results), 30),
        Some(ServerMessage::SearchResults { search_id: "s".to_string(), items: vec![], is_complete: true })
    );
    assert_eq!(session.handle_event(SessionEvent::Tick, 99), None);
    assert_eq!(
        session.handle_event(SessionEvent::FileSystem(created(1)), 100),
        Some(ServerMessage::FileSystemEvents { events: vec![created(0), created(1)] })
    );
    assert_eq!(session.handle_event(SessionEvent::Tick, 500), None);
    assert_eq!(session.handle_event(SessionEvent::FileSystem(created(2)), 150), None);
    assert_eq!(
        session.handle_event(SessionEvent::Tick, 200),
        Some(ServerMessage::FileSystemEvents { events: vec![created(2)] })
    );
}

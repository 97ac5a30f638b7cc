use editor_core::lsp::framing::encode_frame;
use editor_core::lsp::framing::parse_frame;
use editor_core::lsp::framing::Frame;
use editor_core::lsp::framing::FrameError;
use editor_core::lsp::json::parse_message;
use editor_core::lsp::json::JsonRpcMessage;
use editor_core::lsp::lsp_manager::LspManager;
use editor_core::lsp::lsp_manager::ServerLookup;
use editor_core::lsp::lsp_server::classify;
use editor_core::lsp::lsp_server::extract_result;
use editor_core::lsp::lsp_server::Incoming;
use editor_core::lsp::lsp_server::LspError;
use editor_core::lsp::lsp_server::LspServer;
use editor_core::lsp::lsp_server::MessageKind;
use editor_core::lsp::lsp_server::RequestFailure;
use editor_core::lsp::lsp_server::INITIALIZE_TIMEOUT_SECS;
use editor_core::lsp::lsp_server::REQUEST_TIMEOUT_SECS;
use editor_core::lsp::messages::build_notification;
use editor_core::lsp::messages::build_request;
use editor_core::lsp::messages::did_change_params;
use editor_core::lsp::messages::did_close_params;
use editor_core::lsp::messages::did_open_params;
use editor_core::lsp::messages::did_save_params;
use editor_core::lsp::messages::initialize_params;
use editor_core::lsp::messages::position_params;
use editor_core::lsp::types::LspConfiguration;
use editor_core::lsp::types::Position;

fn payload_of(frame: &[u8]) -> Vec<u8> {
    match parse_frame(frame) {
        Frame::Complete { payload, consumed } => {
            assert_eq!(consumed, frame.len());
            payload
        }
        other => panic!("not a whole frame: {:?}", other),
    }
}

fn json(bytes: &[u8]) -> serde_json::Value {
    serde_json::from_slice(bytes).unwrap()
}

fn config(name: &str, extensions: &[&str]) -> LspConfiguration {
    LspConfiguration {
        name: name.to_string(),
        file_extensions: extensions.iter().map(|e| e.to_string()).collect(),
        server_path: format!("/usr/bin/{}", name),
        server_args: vec!["--stdio".to_string()],
        initialization_options: None,
    }
}

fn message(id: Option<u64>, method: Option<&str>) -> Option<JsonRpcMessage> {
    Some(JsonRpcMessage {
        id,
        has_method: method.is_some(),
        method: method.map(|m| m.to_string()),
        result: None,
        error: None,
    })
}

#[test]
fn frame_has_content_length_header() {
    assert_eq!(encode_frame(b"{}"), b"Content-Length: 2\r\n\r\n{}".to_vec());
    assert_eq!(encode_frame(b""), b"Content-Length: 0\r\n\r\n".to_vec());
    let long = vec![b'x'; 1234];
    let frame = encode_frame(&long);
    assert!(frame.starts_with(b"Content-Length: 1234\r\n\r\n"));
    assert_eq!(frame.len(), 24 + 1234);
}

#[test]
fn frame_round_trip() {
    for payload in [&b""[..], b"{}", b"{\"a\":\"\\r\\n\\r\\n\"}", "\u{e4}\u{1f600}".as_bytes()] {
        let mut wire = encode_frame(payload);
        let frame_len = wire.len();
        wire.extend_from_slice(b"Content-Length: 5\r\n\r\nnext!");
        match parse_frame(&wire) {
            Frame::Complete { payload: got, consumed } => {
                assert_eq!(got, payload);
                assert_eq!(consumed, frame_len);
            }
            other => panic!("unexpected {:?}", other),
        }
    }
}

#[test]
fn frame_needs_all_its_bytes() {
    let wire = encode_frame(b"0123456789");
    for cut in 0..wire.len() {
        assert_eq!(parse_frame(&wire[..cut]), Frame::Incomplete);
    }
    assert_eq!(parse_frame(&wire), Frame::Complete { payload: b"0123456789".to_vec(), consumed: wire.len() });
}

#[test]
fn frame_skips_other_headers() {
    let wire = b"Content-Type: application/vscode-jsonrpc; charset=utf-8\r\nContent-Length: 3\r\n\r\nabcdef";
    assert_eq!(parse_frame(wire), Frame::Complete { payload: b"abc".to_vec(), consumed: wire.len() - 3 });
    let bare_lf = b"Content-Length: 2\n\nhi";
    assert_eq!(parse_frame(bare_lf), Frame::Complete { payload: b"hi".to_vec(), consumed: bare_lf.len() });
    let padded = b"   Content-Length: 2  \r\n\r\nhi";
    assert_eq!(parse_frame(padded), Frame::Complete { payload: b"hi".to_vec(), consumed: padded.len() });
    let last_wins = b"Content-Length: 9\r\nContent-Length: 1\r\n\r\nhi";
    assert_eq!(parse_frame(last_wins), Frame::Complete { payload: b"h".to_vec(), consumed: last_wins.len() - 1 });
}

#[test]
fn frame_without_length_is_invalid() {
    assert_eq!(parse_frame(b"\r\n{}"), Frame::Invalid(FrameError::MissingContentLength));
    assert_eq!(
        parse_frame(b"Content-Type: x\r\n\r\n{}"),
        Frame::Invalid(FrameError::MissingContentLength)
    );
    assert_eq!(
        parse_frame(b"content-length: 2\r\n\r\n{}"),
        Frame::Invalid(FrameError::MissingContentLength)
    );
}

#[test]
fn frame_with_bad_length_is_invalid() {
    assert_eq!(parse_frame(b"Content-Length: abc\r\n\r\n"), Frame::Invalid(FrameError::BadContentLength));
    // Without its digits the trimmed line is no length header at all.
    assert_eq!(parse_frame(b"Content-Length: \r\n\r\n"), Frame::Invalid(FrameError::MissingContentLength));
    assert_eq!(parse_frame(b"Content-Length:  7\r\n\r\n"), Frame::Invalid(FrameError::BadContentLength));
    assert_eq!(parse_frame(b"Content-Length: -1\r\n\r\n"), Frame::Invalid(FrameError::BadContentLength));
    assert_eq!(parse_frame(b"Content-Length: 1 2\r\n\r\n"), Frame::Invalid(FrameError::BadContentLength));
    assert_eq!(
        parse_frame(b"Content-Length: 99999999999999999999999999\r\n\r\n"),
        Frame::Invalid(FrameError::BadContentLength)
    );
    assert_eq!(parse_frame(b"Content-Length: 007\r\n\r\n1234567"), Frame::Complete {
        payload: b"1234567".to_vec(),
        consumed: 30,
    });
}

#[test]
fn request_is_json_rpc() {
    let text = build_request(42, "textDocument/hover", b"{\"a\":1}");
    assert_eq!(
        text,
        b"{\"jsonrpc\":\"2.0\",\"id\":42,\"method\":\"textDocument/hover\",\"params\":{\"a\":1}}".to_vec()
    );
    let value = json(&build_request(u64::MAX, "odd \"name\"\n", b"null"));
    assert_eq!(value["id"].as_u64(), Some(u64::MAX));
    assert_eq!(value["method"].as_str(), Some("odd \"name\"\n"));
    assert!(value["params"].is_null());
}

#[test]
fn notification_has_no_id() {
    let value = json(&build_notification("initialized", b"{}"));
    assert_eq!(value["jsonrpc"].as_str(), Some("2.0"));
    assert_eq!(value["method"].as_str(), Some("initialized"));
    assert!(value.get("id").is_none());
    assert!(value["params"].as_object().unwrap().is_empty());
}

#[test]
fn document_notifications_carry_their_fields() {
    let opened = json(&did_open_params("file:///ws/a.rs", "rs", 0, "fn main() {}\n\t\"q\""));
    assert_eq!(opened["textDocument"]["uri"].as_str(), Some("file:///ws/a.rs"));
    assert_eq!(opened["textDocument"]["languageId"].as_str(), Some("rs"));
    assert_eq!(opened["textDocument"]["version"].as_i64(), Some(0));
    assert_eq!(opened["textDocument"]["text"].as_str(), Some("fn main() {}\n\t\"q\""));

    let changed = json(&did_change_params("file:///ws/a.rs", -7, "new"));
    assert_eq!(changed["textDocument"]["version"].as_i64(), Some(-7));
    assert_eq!(changed["contentChanges"][0]["text"].as_str(), Some("new"));
    assert_eq!(changed["contentChanges"].as_array().unwrap().len(), 1);

    let saved = json(&did_save_params("file:///ws/a.rs", i32::MIN, "t"));
    assert_eq!(saved["textDocument"]["version"].as_i64(), Some(i32::MIN as i64));
    assert_eq!(saved["text"].as_str(), Some("t"));

    let closed = json(&did_close_params("file:///ws/a.rs"));
    assert_eq!(closed["textDocument"]["uri"].as_str(), Some("file:///ws/a.rs"));

    let position = json(&position_params("file:///ws/a.rs", 3, u32::MAX));
    assert_eq!(position["position"]["line"].as_u64(), Some(3));
    assert_eq!(position["position"]["character"].as_u64(), Some(u32::MAX as u64));
}

#[test]
fn initialize_params_name_client_and_workspace() {
    let value = json(&initialize_params(4711, "file:///ws", "ws", Some(b"{\"checkOnSave\":true}")));
    assert_eq!(value["processId"].as_u64(), Some(4711));
    assert_eq!(value["clientInfo"]["name"].as_str(), Some("rust-editor"));
    assert_eq!(value["clientInfo"]["version"].as_str(), Some("0.1.0"));
    assert_eq!(value["locale"].as_str(), Some("en-us"));
    assert_eq!(value["trace"].as_str(), Some("verbose"));
    assert!(value["capabilities"].is_object());
    assert_eq!(value["workspaceFolders"][0]["uri"].as_str(), Some("file:///ws"));
    assert_eq!(value["workspaceFolders"][0]["name"].as_str(), Some("ws"));
    assert_eq!(value["initializationOptions"]["checkOnSave"].as_bool(), Some(true));
    let none = json(&initialize_params(1, "file:///ws", "ws", None));
    assert!(none["initializationOptions"].is_null());
}

#[test]
fn messages_are_told_apart() {
    assert!(matches!(classify(&message(Some(3), None)), MessageKind::Response { id: 3 }));
    assert!(matches!(classify(&message(Some(3), Some("m"))), MessageKind::Response { id: 3 }));
    assert!(matches!(classify(&message(None, Some("m"))), MessageKind::Notification));
    assert!(matches!(classify(&message(None, None)), MessageKind::Ignored));
    assert!(matches!(classify(&None), MessageKind::Ignored));
}

#[test]
fn request_ids_are_fresh_and_pending() {
    let mut server: LspServer<&str> = LspServer::new();
    let (a, frame_a) = server.send_request("textDocument/hover", b"{}", "slot a").unwrap();
    let (b, _) = server.send_request("textDocument/hover", b"{}", "slot b").unwrap();
    assert_eq!((a, b), (0, 1));
    assert_eq!(server.pending_count(), 2);
    assert!(server.is_pending(a) && server.is_pending(b));
    let sent = json(&payload_of(&frame_a));
    assert_eq!(sent["id"].as_u64(), Some(0));
    assert_eq!(sent["method"].as_str(), Some("textDocument/hover"));
}

#[test]
fn response_releases_its_slot_once() {
    let mut server: LspServer<&str> = LspServer::new();
    let (a, _) = server.send_request("m", b"{}", "slot a").unwrap();
    let (b, _) = server.send_request("m", b"{}", "slot b").unwrap();
    let reply = b"{\"jsonrpc\":\"2.0\",\"id\":1,\"result\":{\"x\":1}}";
    match server.handle_message(reply) {
        Incoming::Deliver { id, slot, reply } => {
            assert_eq!(id, b);
            assert_eq!(slot, "slot b");
            assert_eq!(reply.id, Some(1));
            assert_eq!(reply.error, None);
            assert_eq!(extract_result(&Some(reply)), Ok(Some(b"{\"x\":1}".to_vec())));
        }
        _ => panic!("the reply was not delivered"),
    }
    assert!(!server.is_pending(b));
    assert!(server.is_pending(a));
    assert_eq!(server.pending_count(), 1);
    assert!(matches!(server.handle_message(reply), Incoming::Unclaimed { id: 1 }));
    assert_eq!(server.pending_count(), 1);
    let (c, _) = server.send_request("m", b"{}", "slot c").unwrap();
    assert_eq!(c, 2);
}

#[test]
fn error_replies_are_delivered_as_errors() {
    let mut server: LspServer<u8> = LspServer::new();
    server.send_request("m", b"{}", 9).unwrap();
    let reply = b"{\"id\":0,\"error\":{\"code\":-32601,\"message\":\"nope\"}}";
    match server.handle_message(reply) {
        Incoming::Deliver { id: 0, slot: 9, reply } => {
            assert_eq!(reply.result, None);
            let error: serde_json::Value = serde_json::from_slice(reply.error.as_ref().unwrap()).unwrap();
            assert_eq!(error["code"].as_i64(), Some(-32601));
            assert!(matches!(extract_result(&Some(reply)), Err(LspError::LspError { .. })));
        }
        _ => panic!("the error was not delivered"),
    }
}

#[test]
fn notifications_and_noise() {
    let mut server: LspServer<u8> = LspServer::new();
    server.send_request("m", b"{}", 1).unwrap();
    let diagnostics = b"{\"method\":\"textDocument/publishDiagnostics\",\"params\":{}}";
    match server.handle_message(diagnostics) {
        Incoming::Notification { method, is_diagnostics } => {
            assert_eq!(method.as_deref(), Some("textDocument/publishDiagnostics"));
            assert!(is_diagnostics);
        }
        _ => panic!("not a notification"),
    }
    match server.handle_message(b"{\"method\":\"window/logMessage\"}") {
        Incoming::Notification { method, is_diagnostics } => {
            assert_eq!(method.as_deref(), Some("window/logMessage"));
            assert!(!is_diagnostics);
        }
        _ => panic!("not a notification"),
    }
    assert!(matches!(server.handle_message(b"{\"method\":5}"), Incoming::Notification { method: None, .. }));
    assert!(matches!(server.handle_message(b"not json"), Incoming::Ignored));
    assert!(matches!(server.handle_message(b"{\"id\":\"text\"}"), Incoming::Ignored));
    assert!(matches!(server.handle_message(b"{\"id\":-1}"), Incoming::Ignored));
    assert!(matches!(server.handle_message(b"[1,2]"), Incoming::Ignored));
    assert_eq!(server.pending_count(), 1);
}

#[test]
fn lsp_request_timeout() {
    assert_eq!(REQUEST_TIMEOUT_SECS, 30);
    assert_eq!(INITIALIZE_TIMEOUT_SECS, 60);
    let mut server: LspServer<&str> = LspServer::new();
    let (hover, _) = server.send_request("textDocument/hover", b"{}", "hover").unwrap();
    // No reply within the timeout: the request fails and its slot is given up.
    assert_eq!(server.fail_request(hover, RequestFailure::TimedOut), LspError::LspTimeout);
    assert!(!server.is_pending(hover));
    assert_eq!(server.pending_count(), 0);
    // A late reply finds nobody.
    assert!(matches!(server.handle_message(b"{\"id\":0,\"result\":null}"), Incoming::Unclaimed { id: 0 }));
    // The next request on the same server succeeds.
    let (next, _) = server.send_request("textDocument/hover", b"{}", "again").unwrap();
    assert_eq!(next, 1);
    assert!(matches!(
        server.handle_message(b"{\"id\":1,\"result\":{\"contents\":\"doc\"}}"),
        Incoming::Deliver { id: 1, slot: "again", .. }
    ));
    let (closed, _) = server.send_request("m", b"{}", "c").unwrap();
    assert_eq!(server.fail_request(closed, RequestFailure::Closed), LspError::LspChannelClosed);
    assert_eq!(server.pending_count(), 0);
}

#[test]
fn results_are_extracted() {
    let with = |result: Option<&[u8]>, error: Option<&[u8]>| {
        Some(JsonRpcMessage {
            id: Some(1),
            has_method: false,
            method: None,
            result: result.map(|r| r.to_vec()),
            error: error.map(|e| e.to_vec()),
        })
    };
    assert_eq!(extract_result(&with(Some(b"{\"a\":1}"), None)), Ok(Some(b"{\"a\":1}".to_vec())));
    assert_eq!(extract_result(&with(Some(b"null"), None)), Ok(None));
    assert_eq!(extract_result(&with(Some(b"null"), Some(b"{}"))), Ok(None));
    assert_eq!(extract_result(&with(None, None)), Ok(None));
    assert_eq!(extract_result(&None), Ok(None));
    assert_eq!(
        extract_result(&with(None, Some(b"{\"code\":1}"))),
        Err(LspError::LspError { error: b"{\"code\":1}".to_vec() })
    );
}

#[test]
fn initialization_stores_the_capabilities() {
    let mut server: LspServer<u8> = LspServer::new();
    let (id, frame) = server.initialize(77, "file:///ws", "ws", None, 1).unwrap();
    assert_eq!(id, 0);
    let sent = json(&payload_of(&frame));
    assert_eq!(sent["method"].as_str(), Some("initialize"));
    assert_eq!(sent["params"]["processId"].as_u64(), Some(77));
    assert!(server.server_capabilities().is_none());

    let reply = |result: &[u8]| {
        Some(JsonRpcMessage {
            id: Some(0),
            has_method: false,
            method: None,
            result: Some(result.to_vec()),
            error: None,
        })
    };
    let initialized = server.complete_initialization(&reply(b"{ \"hoverProvider\" : true, \"x\": 1 }"));
    let note = json(&payload_of(&initialized));
    assert_eq!(note["method"].as_str(), Some("initialized"));
    let kept = json(server.server_capabilities().as_ref().unwrap());
    assert_eq!(kept["hoverProvider"].as_bool(), Some(true));
    assert!(kept.get("x").is_none());
    // A result that cannot be read as capabilities leaves none, and so does a
    // reply without a result. The session goes on.
    server.complete_initialization(&reply(b"{\"hoverProvider\":\"no\"}"));
    assert!(server.server_capabilities().is_none());
    server.complete_initialization(&reply(b"[1,2]"));
    assert!(server.server_capabilities().is_none());
    server.complete_initialization(&reply(b"{\"definitionProvider\":true}"));
    assert!(server.server_capabilities().is_some());
    server.complete_initialization(&reply(b"null"));
    assert!(server.server_capabilities().is_none());
    server.complete_initialization(&None);
    assert!(server.server_capabilities().is_none());
    let frame = server.finish_initialization(Some(b"{}".to_vec()));
    assert_eq!(frame, initialized);
    assert_eq!(server.server_capabilities().as_deref(), Some(&b"{}"[..]));
    let (next, _) = server.send_request("textDocument/hover", b"{}", 2).unwrap();
    assert_eq!(next, 1);
}

#[test]
fn servers_are_found_by_extension() {
    let servers = LspManager::new(
        "/ws".to_string(),
        vec![config("rust-analyzer", &["rs"]), config("tsserver", &["ts", "tsx"]), config("deno", &["ts"])],
    );
    assert_eq!(servers.workspace_path(), "/ws");
    assert_eq!(servers.server_name("/ws/src/main.rs"), Some("rust-analyzer".to_string()));
    assert_eq!(servers.server_name("/ws/app.tsx"), Some("tsserver".to_string()));
    // Of two servers for one extension the later one has it.
    assert_eq!(servers.server_name("/ws/app.ts"), Some("deno".to_string()));
    assert_eq!(servers.server_name("/ws/README.md"), None);
    assert_eq!(servers.server_name("/ws/Makefile"), None);
    assert_eq!(LspManager::language_id("/ws/a.rs"), "rs");
    assert_eq!(LspManager::language_id("/ws/Makefile"), "plaintext");
}

#[test]
fn server_lifecycle() {
    let mut servers = LspManager::new("/ws".to_string(), vec![config("rust-analyzer", &["rs"]), config("gopls", &["go"])]);
    assert_eq!(servers.get_server("/ws/notes.txt"), ServerLookup::NoServer);
    match servers.get_server("/ws/a.rs") {
        ServerLookup::Start { config: c } => assert_eq!(c, config("rust-analyzer", &["rs"])),
        other => panic!("unexpected {:?}", other),
    }
    assert_eq!(servers.running_server("/ws/a.rs"), None);
    servers.server_started("rust-analyzer");
    assert_eq!(servers.get_server("/ws/a.rs"), ServerLookup::Active { name: "rust-analyzer".to_string() });
    assert_eq!(servers.running_server("/ws/b.rs"), Some("rust-analyzer".to_string()));
    // A server that failed to start leaves its files without a server.
    servers.server_failed("gopls");
    assert_eq!(servers.get_server("/ws/main.go"), ServerLookup::NoServer);
    assert_eq!(servers.running_server("/ws/main.go"), None);
}

#[test]
fn notifications_go_to_the_running_server() {
    let mut servers = LspManager::new("/ws".to_string(), vec![config("rust-analyzer", &["rs"])]);
    assert_eq!(servers.notify_document_opened("/ws/a.rs", "text", 0), Ok(None));
    servers.server_started("rust-analyzer");
    let opened = servers.notify_document_opened("/ws/a b.rs", "fn x() {}", 0).unwrap().unwrap();
    assert_eq!(opened.server, "rust-analyzer");
    let sent = json(&payload_of(&opened.frame));
    assert_eq!(sent["method"].as_str(), Some("textDocument/didOpen"));
    assert_eq!(sent["params"]["textDocument"]["uri"].as_str(), Some("file:///ws/a%20b.rs"));
    assert_eq!(sent["params"]["textDocument"]["languageId"].as_str(), Some("rs"));
    assert_eq!(sent["params"]["textDocument"]["text"].as_str(), Some("fn x() {}"));

    let changed = servers.notify_document_changed("/ws/a.rs", "new", 2).unwrap().unwrap();
    assert_eq!(json(&payload_of(&changed.frame))["method"].as_str(), Some("textDocument/didChange"));
    let saved = servers.notify_document_saved("/ws/a.rs", "new", 2).unwrap().unwrap();
    assert_eq!(json(&payload_of(&saved.frame))["method"].as_str(), Some("textDocument/didSave"));
    let closed = servers.notify_document_closed("/ws/a.rs").unwrap().unwrap();
    assert_eq!(json(&payload_of(&closed.frame))["method"].as_str(), Some("textDocument/didClose"));

    assert_eq!(servers.notify_document_opened("/ws/readme.md", "text", 0), Ok(None));
    assert_eq!(servers.notify_document_opened("relative/a.rs", "text", 0), Err(LspError::InvalidPath));
    assert_eq!(servers.notify_document_changed("relative/a.rs", "text", 0), Err(LspError::InvalidPath));
    assert_eq!(servers.notify_document_saved("relative/a.rs", "text", 0), Err(LspError::InvalidPath));
    assert_eq!(servers.notify_document_closed("relative/a.rs"), Err(LspError::InvalidPath));
}

#[test]
fn position_requests_name_their_method() {
    let mut servers = LspManager::new("/ws".to_string(), vec![config("rust-analyzer", &["rs"])]);
    let at = Position { line: 4, character: 2 };
    assert_eq!(servers.get_hover("/ws/a.rs", at), Ok(None));
    servers.server_started("rust-analyzer");
    let hover = servers.get_hover("/ws/a.rs", at).unwrap().unwrap();
    assert_eq!(hover.method, "textDocument/hover");
    assert_eq!(hover.server, "rust-analyzer");
    let params = json(&hover.params);
    assert_eq!(params["textDocument"]["uri"].as_str(), Some("file:///ws/a.rs"));
    assert_eq!(params["position"]["line"].as_u64(), Some(4));
    assert_eq!(params["position"]["character"].as_u64(), Some(2));
    assert_eq!(servers.get_completions("/ws/a.rs", at).unwrap().unwrap().method, "textDocument/completion");
    assert_eq!(servers.get_definition("/ws/a.rs", at).unwrap().unwrap().method, "textDocument/definition");
    assert_eq!(servers.get_definition("/ws/a.txt", at), Ok(None));
    assert_eq!(servers.get_hover("a.rs", at), Err(LspError::InvalidPath));
}

#[test]
fn request_ids_run_out() {
    let mut server: LspServer<u8> = LspServer::starting_at(u64::MAX - 1);
    let (last, _) = server.send_request("m", b"{}", 1).unwrap();
    assert_eq!(last, u64::MAX - 1);
    assert_eq!(server.send_request("m", b"{}", 2), Err(LspError::IdsExhausted));
    assert_eq!(server.pending_count(), 1);
    assert!(server.is_pending(last));
}

#[test]
fn without_a_server_nothing_is_sent_and_nothing_fails() {
    let mut servers = LspManager::new("/ws".to_string(), vec![config("rust-analyzer", &["rs"]), config("gopls", &["go"])]);
    servers.server_failed("gopls");
    // No server runs: not even a path that no URI can be made of is an error.
    for path in ["/ws/a.rs", "relative/a.rs", "/ws/main.go", "main.go", "/ws/notes.txt", ""] {
        assert_eq!(servers.notify_document_opened(path, "text", 1), Ok(None));
        assert_eq!(servers.notify_document_changed(path, "text", 2), Ok(None));
        assert_eq!(servers.notify_document_saved(path, "text", 2), Ok(None));
        assert_eq!(servers.notify_document_closed(path), Ok(None));
    }
    servers.server_started("rust-analyzer");
    let changed = servers.notify_document_changed("/ws/a.rs", "new text", 5).unwrap().unwrap();
    assert_eq!(changed.server, "rust-analyzer");
    let sent = json(&payload_of(&changed.frame));
    assert_eq!(sent["method"].as_str(), Some("textDocument/didChange"));
    assert_eq!(sent["params"]["textDocument"]["uri"].as_str(), Some("file:///ws/a.rs"));
    assert_eq!(sent["params"]["textDocument"]["version"].as_i64(), Some(5));
    assert_eq!(sent["params"]["contentChanges"][0]["text"].as_str(), Some("new text"));
    assert_eq!(servers.notify_document_changed("/ws/main.go", "text", 2), Ok(None));
}

#[test]
fn strings_are_escaped_byte_by_byte() {
    let text = build_notification("a\"b\\c\u{8}\t\n\u{c}\r\u{0}\u{1}\u{1f} \u{7f}/\u{e9}\u{1f600}", b"0");
    let mut expected = b"{\"jsonrpc\":\"2.0\",\"method\":\"a\\\"b\\\\c\\b\\t\\n\\f\\r\\u0000\\u0001\\u001f \x7f/".to_vec();
    expected.extend_from_slice("\u{e9}\u{1f600}".as_bytes());
    expected.extend_from_slice(b"\",\"params\":0}");
    assert_eq!(text, expected);
    for low in 0u8..32 {
        let name = String::from(low as char);
        let value = json(&build_notification(&name, b"0"));
        assert_eq!(value["method"].as_str(), Some(name.as_str()));
    }
    let eleven = build_notification("\u{b}\u{1a}", b"0");
    assert!(eleven.windows(12).any(|w| w == b"\\u000b\\u001a"));
}

#[test]
fn messages_are_read_by_their_four_keys() {
    let read = parse_message(b"{\"id\":7,\"method\":\"m\",\"result\":{\"a\":[1]},\"error\":null,\"other\":1}").unwrap();
    assert_eq!(read.id, Some(7));
    assert!(read.has_method);
    assert_eq!(read.method.as_deref(), Some("m"));
    assert_eq!(read.result.as_deref(), Some(&b"{\"a\":[1]}"[..]));
    assert_eq!(read.error.as_deref(), Some(&b"null"[..]));
    let bare = parse_message(b"{\"Id\":7,\"params\":{\"id\":1,\"method\":\"x\"}}").unwrap();
    assert_eq!(bare, JsonRpcMessage { id: None, has_method: false, method: None, result: None, error: None });
    assert_eq!(parse_message(b"{\"id\":7"), None);
    assert_eq!(parse_message(b""), None);
}

#[test]
fn uris_are_in_the_file_scheme() {
    let mut servers = LspManager::new("/ws".to_string(), vec![config("rust-analyzer", &["rs"])]);
    servers.server_started("rust-analyzer");
    for path in ["/ws/a.rs", "/ws/sub dir/\u{e9}.rs", "/a.rs"] {
        let call = servers.get_hover(path, Position { line: 0, character: 0 }).unwrap().unwrap();
        let uri = json(&call.params)["textDocument"]["uri"].as_str().unwrap().to_string();
        assert!(uri.starts_with("file://"));
        let opened = servers.notify_document_opened(path, "", 0).unwrap().unwrap();
        let sent = json(&payload_of(&opened.frame));
        assert_eq!(sent["params"]["textDocument"]["uri"].as_str(), Some(uri.as_str()));
    }
}

#[test]
fn initialize_parameters_read_back_as_the_protocol_types() {
    let bytes = initialize_params(4711, "file:///ws", "ws", Some(b"{\"checkOnSave\":true}"));
    let params: lsp_types::InitializeParams = serde_json::from_slice(&bytes).unwrap();
    assert_eq!(params.process_id, Some(4711));
    assert_eq!(params.capabilities, lsp_types::ClientCapabilities::default());
    assert_eq!(params.trace, Some(lsp_types::TraceValue::Verbose));
    assert_eq!(params.locale.as_deref(), Some("en-us"));
    let info = params.client_info.unwrap();
    assert_eq!(info.name, "rust-editor");
    assert_eq!(info.version.as_deref(), Some("0.1.0"));
    let folders = params.workspace_folders.unwrap();
    assert_eq!(folders.len(), 1);
    assert_eq!(folders[0].uri.as_str(), "file:///ws");
    assert_eq!(folders[0].name, "ws");
    assert_eq!(params.initialization_options.unwrap()["checkOnSave"].as_bool(), Some(true));
    // What the protocol types write for the client's capabilities is what
    // goes out.
    assert_eq!(serde_json::to_vec(&lsp_types::ClientCapabilities::default()).unwrap(), b"{}".to_vec());
}

//! The JSON-RPC messages that the adapter sends, written out byte by byte.
//!
//! Strings go in as JSON string literals; `params` and initialisation options
//! go in as they are and have to be JSON already.

use vstd::prelude::*;
use vstd::string::StringSliceAdditionalSpecFns;
use vstd::utf8::encode_utf8;
use crate::lsp::framing::decimal;
use crate::lsp::framing::push_bytes;
use crate::lsp::framing::push_decimal;
use crate::lsp::json::json_quote;
use crate::lsp::json::json_quoted;

verus! {

/// The name that the adapter gives itself to a server.
pub open spec fn client_name() -> Seq<char> {
    "rust-editor"@
}

/// The version that the adapter gives of itself to a server.
pub open spec fn client_version() -> Seq<char> {
    "0.1.0"@
}

/// The bytes of a piece of literal text.
pub open spec fn lit(text: Seq<char>) -> Seq<u8> {
    encode_utf8(text)
}

/// The decimal digits of `v`, with a minus sign where it is negative.
pub open spec fn signed_decimal(v: int) -> Seq<u8> {
    if v < 0 {
        seq![45u8] + decimal((-v) as nat)
    } else {
        decimal(v as nat)
    }
}

/// A request: `{"jsonrpc":"2.0","id":..,"method":..,"params":..}`.
pub open spec fn request_text(id: u64, method: Seq<char>, params: Seq<u8>) -> Seq<u8> {
    lit("{\"jsonrpc\":\"2.0\",\"id\":"@) + decimal(id as nat) + lit(",\"method\":"@) + json_quoted(
        method,
    ) + lit(",\"params\":"@) + params + lit("}"@)
}

/// A notification: `{"jsonrpc":"2.0","method":..,"params":..}`.
pub open spec fn notification_text(method: Seq<char>, params: Seq<u8>) -> Seq<u8> {
    lit("{\"jsonrpc\":\"2.0\",\"method\":"@) + json_quoted(method) + lit(",\"params\":"@) + params
        + lit("}"@)
}

/// The parameters of `textDocument/didOpen`.
pub open spec fn did_open_text(
    uri: Seq<char>,
    language_id: Seq<char>,
    version: i32,
    text: Seq<char>,
) -> Seq<u8> {
    lit("{\"textDocument\":{\"uri\":"@) + json_quoted(uri) + lit(",\"languageId\":"@) + json_quoted(
        language_id,
    ) + lit(",\"version\":"@) + signed_decimal(version as int) + lit(",\"text\":"@) + json_quoted(
        text,
    ) + lit("}}"@)
}

/// The parameters of `textDocument/didChange`, with the whole new text as the
/// one change.
pub open spec fn did_change_text(uri: Seq<char>, version: i32, text: Seq<char>) -> Seq<u8> {
    lit("{\"textDocument\":{\"uri\":"@) + json_quoted(uri) + lit(",\"version\":"@) + signed_decimal(
        version as int,
    ) + lit("},\"contentChanges\":[{\"text\":"@) + json_quoted(text) + lit("}]}"@)
}

/// The parameters of `textDocument/didSave`.
pub open spec fn did_save_text(uri: Seq<char>, version: i32, text: Seq<char>) -> Seq<u8> {
    lit("{\"textDocument\":{\"uri\":"@) + json_quoted(uri) + lit(",\"version\":"@) + signed_decimal(
        version as int,
    ) + lit("},\"text\":"@) + json_quoted(text) + lit("}"@)
}

/// The parameters of `textDocument/didClose`.
pub open spec fn did_close_text(uri: Seq<char>) -> Seq<u8> {
    lit("{\"textDocument\":{\"uri\":"@) + json_quoted(uri) + lit("}}"@)
}

/// The parameters of a request about a position in a document.
pub open spec fn position_text(uri: Seq<char>, line: u32, character: u32) -> Seq<u8> {
    lit("{\"textDocument\":{\"uri\":"@) + json_quoted(uri) + lit("},\"position\":{\"line\":"@)
        + decimal(line as nat) + lit(",\"character\":"@) + decimal(character as nat) + lit("}}"@)
}

/// The parameters of `initialize`: the process id, the client's name and
/// version, the locale `en-us`, verbose tracing, empty client capabilities,
/// the workspace as the one workspace folder, and the initialisation options,
/// `null` where there are none.
pub open spec fn initialize_text(
    process_id: u32,
    workspace_uri: Seq<char>,
    folder_name: Seq<char>,
    initialization_options: Option<Seq<u8>>,
) -> Seq<u8> {
    lit("{\"processId\":"@) + decimal(process_id as nat) + lit(",\"clientInfo\":{\"name\":"@)
        + json_quoted(client_name()) + lit(",\"version\":"@) + json_quoted(client_version())
        + lit("},\"locale\":\"en-us\",\"trace\":\"verbose\",\"capabilities\":{},"@) + lit(
        "\"workspaceFolders\":[{\"uri\":"@,
    ) + json_quoted(workspace_uri) + lit(",\"name\":"@) + json_quoted(folder_name) + lit(
        "}],\"initializationOptions\":"@,
    ) + (match initialization_options {
        Some(options) => options,
        None => lit("null"@),
    }) + lit("}"@)
}

/// Appends the decimal digits of `v`, with a minus sign where it is negative.
pub fn push_signed(out: &mut Vec<u8>, v: i32)
    ensures
        final(out)@ == old(out)@ + signed_decimal(v as int),
{
    if v < 0 {
        out.push(45);
        let magnitude: u64 = (-(v as i64)) as u64;
        push_decimal(out, magnitude);
        assert(out@ =~= old(out)@ + signed_decimal(v as int));
    } else {
        push_decimal(out, v as u64);
    }
}

/// Appends `text` as a JSON string literal.
pub fn push_quoted(out: &mut Vec<u8>, text: &str)
    ensures
        final(out)@ == old(out)@ + json_quoted(text@),
{
    let quoted = json_quote(text);
    push_bytes(out, quoted.as_slice());
}

/// Appends a piece of literal text.
pub fn push_lit(out: &mut Vec<u8>, text: &str)
    ensures
        final(out)@ == old(out)@ + lit(text@),
{
    push_bytes(out, text.as_bytes());
}

/// Writes a request.
pub fn build_request(id: u64, method: &str, params: &[u8]) -> (r: Vec<u8>)
    ensures
        r@ == request_text(id, method@, params@),
{
    let mut out: Vec<u8> = Vec::new();
    push_lit(&mut out, "{\"jsonrpc\":\"2.0\",\"id\":");
    push_decimal(&mut out, id);
    push_lit(&mut out, ",\"method\":");
    push_quoted(&mut out, method);
    push_lit(&mut out, ",\"params\":");
    push_bytes(&mut out, params);
    push_lit(&mut out, "}");
    assert(out@ =~= request_text(id, method@, params@));
    out
}

/// Writes a notification.
pub fn build_notification(method: &str, params: &[u8]) -> (r: Vec<u8>)
    ensures
        r@ == notification_text(method@, params@),
{
    let mut out: Vec<u8> = Vec::new();
    push_lit(&mut out, "{\"jsonrpc\":\"2.0\",\"method\":");
    push_quoted(&mut out, method);
    push_lit(&mut out, ",\"params\":");
    push_bytes(&mut out, params);
    push_lit(&mut out, "}");
    assert(out@ =~= notification_text(method@, params@));
    out
}

/// Writes the parameters of `textDocument/didOpen`.
pub fn did_open_params(uri: &str, language_id: &str, version: i32, text: &str) -> (r: Vec<u8>)
    ensures
        r@ == did_open_text(uri@, language_id@, version, text@),
{
    let mut out: Vec<u8> = Vec::new();
    push_lit(&mut out, "{\"textDocument\":{\"uri\":");
    push_quoted(&mut out, uri);
    push_lit(&mut out, ",\"languageId\":");
    push_quoted(&mut out, language_id);
    push_lit(&mut out, ",\"version\":");
    push_signed(&mut out, version);
    push_lit(&mut out, ",\"text\":");
    push_quoted(&mut out, text);
    push_lit(&mut out, "}}");
    assert(out@ =~= did_open_text(uri@, language_id@, version, text@));
    out
}

/// Writes the parameters of `textDocument/didChange`.
pub fn did_change_params(uri: &str, version: i32, text: &str) -> (r: Vec<u8>)
    ensures
        r@ == did_change_text(uri@, version, text@),
{
    let mut out: Vec<u8> = Vec::new();
    push_lit(&mut out, "{\"textDocument\":{\"uri\":");
    push_quoted(&mut out, uri);
    push_lit(&mut out, ",\"version\":");
    push_signed(&mut out, version);
    push_lit(&mut out, "},\"contentChanges\":[{\"text\":");
    push_quoted(&mut out, text);
    push_lit(&mut out, "}]}");
    assert(out@ =~= did_change_text(uri@, version, text@));
    out
}

/// Writes the parameters of `textDocument/didSave`.
pub fn did_save_params(uri: &str, version: i32, text: &str) -> (r: Vec<u8>)
    ensures
        r@ == did_save_text(uri@, version, text@),
{
    let mut out: Vec<u8> = Vec::new();
    push_lit(&mut out, "{\"textDocument\":{\"uri\":");
    push_quoted(&mut out, uri);
    push_lit(&mut out, ",\"version\":");
    push_signed(&mut out, version);
    push_lit(&mut out, "},\"text\":");
    push_quoted(&mut out, text);
    push_lit(&mut out, "}");
    assert(out@ =~= did_save_text(uri@, version, text@));
    out
}

/// Writes the parameters of `textDocument/didClose`.
pub fn did_close_params(uri: &str) -> (r: Vec<u8>)
    ensures
        r@ == did_close_text(uri@),
{
    let mut out: Vec<u8> = Vec::new();
    push_lit(&mut out, "{\"textDocument\":{\"uri\":");
    push_quoted(&mut out, uri);
    push_lit(&mut out, "}}");
    assert(out@ =~= did_close_text(uri@));
    out
}

/// Writes the parameters of a request about a position in a document.
pub fn position_params(uri: &str, line: u32, character: u32) -> (r: Vec<u8>)
    ensures
        r@ == position_text(uri@, line, character),
{
    let mut out: Vec<u8> = Vec::new();
    push_lit(&mut out, "{\"textDocument\":{\"uri\":");
    push_quoted(&mut out, uri);
    push_lit(&mut out, "},\"position\":{\"line\":");
    push_decimal(&mut out, line as u64);
    push_lit(&mut out, ",\"character\":");
    push_decimal(&mut out, character as u64);
    push_lit(&mut out, "}}");
    assert(out@ =~= position_text(uri@, line, character));
    out
}

/// Writes the parameters of `initialize`.
pub fn initialize_params(
    process_id: u32,
    workspace_uri: &str,
    folder_name: &str,
    initialization_options: Option<&[u8]>,
) -> (r: Vec<u8>)
    ensures
        r@ == initialize_text(
            process_id,
            workspace_uri@,
            folder_name@,
            match initialization_options {
                Some(options) => Some(options@),
                None => None,
            },
        ),
{
    let mut out: Vec<u8> = Vec::new();
    push_lit(&mut out, "{\"processId\":");
    push_decimal(&mut out, process_id as u64);
    push_lit(&mut out, ",\"clientInfo\":{\"name\":");
    push_quoted(&mut out, "rust-editor");
    push_lit(&mut out, ",\"version\":");
    push_quoted(&mut out, "0.1.0");
    push_lit(&mut out, "},\"locale\":\"en-us\",\"trace\":\"verbose\",\"capabilities\":{},");
    push_lit(&mut out, "\"workspaceFolders\":[{\"uri\":");
    push_quoted(&mut out, workspace_uri);
    push_lit(&mut out, ",\"name\":");
    push_quoted(&mut out, folder_name);
    push_lit(&mut out, "}],\"initializationOptions\":");
    match initialization_options {
        Some(options) => {
            push_bytes(&mut out, options);
        },
        None => {
            push_lit(&mut out, "null");
        },
    }
    push_lit(&mut out, "}");
    assert(out@ =~= initialize_text(
        process_id,
        workspace_uri@,
        folder_name@,
        match initialization_options {
            Some(options) => Some(options@),
            None => None,
        },
    ));
    out
}

} // verus!

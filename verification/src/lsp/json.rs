//! What the adapter has from the JSON and URL libraries: quoting a string,
//! taking a message apart, and writing a path as a `file://` URI.

use vstd::prelude::*;
use vstd::utf8::encode_utf8;

verus! {

/// The fields of a JSON-RPC message that the adapter reads.
#[derive(Clone, Debug, PartialEq, Eq)]
pub struct JsonRpcMessage {
    /// The `id`, where it is a non-negative number.
    pub id: Option<u64>,
    /// Whether the message has a `method` field.
    pub has_method: bool,
    /// The `method`, where it is a string.
    pub method: Option<String>,
    /// The `result` field, written out as JSON, where there is one.
    pub result: Option<Vec<u8>>,
    /// The `error` field, written out as JSON, where there is one.
    pub error: Option<Vec<u8>>,
}

/// The fields of a message, as plain values.
pub struct MessageFields {
    pub id: Option<u64>,
    pub has_method: bool,
    pub method: Option<Seq<char>>,
    pub result: Option<Seq<u8>>,
    pub error: Option<Seq<u8>>,
}

impl View for JsonRpcMessage {
    type V = MessageFields;

    open spec fn view(&self) -> MessageFields {
        MessageFields {
            id: self.id,
            has_method: self.has_method,
            method: match self.method {
                Some(m) => Some(m@),
                None => None,
            },
            result: match self.result {
                Some(r) => Some(r@),
                None => None,
            },
            error: match self.error {
                Some(e) => Some(e@),
                None => None,
            },
        }
    }
}

/// The lower-case hexadecimal digit for `n`, which is below 16.
pub open spec fn hex_digit(n: u8) -> u8 {
    if n < 10 {
        (48 + n) as u8
    } else {
        (87 + n) as u8
    }
}

/// A byte of a string as it stands inside a JSON string literal: the quote and
/// the backslash behind a backslash, the control characters as `\b`, `\t`,
/// `\n`, `\f`, `\r` or `\u00` and two hexadecimal digits, every other byte
/// as it is.
pub open spec fn escaped_byte(b: u8) -> Seq<u8> {
    if b == 34 {
        seq![92u8, 34u8]
    } else if b == 92 {
        seq![92u8, 92u8]
    } else if b == 8 {
        seq![92u8, 98u8]
    } else if b == 9 {
        seq![92u8, 116u8]
    } else if b == 10 {
        seq![92u8, 110u8]
    } else if b == 12 {
        seq![92u8, 102u8]
    } else if b == 13 {
        seq![92u8, 114u8]
    } else if b < 32 {
        seq![92u8, 117u8, 48u8, 48u8, hex_digit(b / 16), hex_digit(b % 16)]
    } else {
        seq![b]
    }
}

/// The bytes of a string as they stand inside a JSON string literal.
pub open spec fn escaped(bytes: Seq<u8>) -> Seq<u8>
    decreases bytes.len(),
{
    if bytes.len() == 0 {
        Seq::empty()
    } else {
        escaped(bytes.drop_last()) + escaped_byte(bytes.last())
    }
}

/// `text` as a JSON string literal: its UTF-8 bytes, escaped, between quotes.
pub open spec fn json_quoted(text: Seq<char>) -> Seq<u8> {
    seq![34u8] + escaped(encode_utf8(text)) + seq![34u8]
}

/// What the JSON document `payload` holds under four keys: under the first a
/// non-negative number, under the second anything, and a string where it is
/// one, under the last two anything, written out as JSON. `None` where
/// `payload` is not well-formed JSON.
pub uninterp spec fn parsed_fields(
    payload: Seq<u8>,
    id_key: Seq<char>,
    method_key: Seq<char>,
    result_key: Seq<char>,
    error_key: Seq<char>,
) -> Option<MessageFields>;

/// The fields of the JSON-RPC message `payload`: what it holds under `id`,
/// `method`, `result` and `error`.
pub open spec fn parsed_message(payload: Seq<u8>) -> Option<MessageFields> {
    parsed_fields(payload, "id"@, "method"@, "result"@, "error"@)
}

/// The capabilities of a language server that the JSON document `json` spells,
/// written out as JSON again; `None` where `json` does not spell any.
pub uninterp spec fn parsed_capabilities(json: Seq<u8>) -> Option<Seq<u8>>;

/// `serde_json::from_slice` into `lsp_types::ServerCapabilities`, then
/// `serde_json::to_vec` on what was read: the capabilities that `json` spells,
/// in the form in which the library writes them. `None` where `json` cannot
/// be read as capabilities. The outcome depends on the bytes alone.
#[verifier::external_body]
pub(crate) fn parse_capabilities(json: &[u8]) -> (r: Option<Vec<u8>>)
    ensures
        match r {
            Some(capabilities) => parsed_capabilities(json@) == Some(capabilities@),
            None => parsed_capabilities(json@) is None,
        },
{
    let capabilities: lsp_types::ServerCapabilities = serde_json::from_slice(json).ok()?;
    serde_json::to_vec(&capabilities).ok()
}

/// `serde_json::to_vec` on a string: the string as a JSON string literal, in
/// the compact form, which escapes the quote, the backslash and the bytes
/// below 32 and writes every other byte as it is. The call cannot fail on a
/// string.
#[verifier::external_body]
pub(crate) fn json_quote(text: &str) -> (r: Vec<u8>)
    ensures
        r@ == json_quoted(text@),
{
    serde_json::to_vec(text).unwrap_or_default()
}

/// `serde_json::from_slice` into a `serde_json::Value`, then `Value::get`
/// with each of the four keys, `as_u64` and `as_str` on what the first two
/// name, and `serde_json::to_vec` on what the last two name. `None` where the
/// payload is not well-formed JSON. The outcome depends on the bytes and the
/// keys alone.
#[verifier::external_body]
pub(crate) fn parse_fields(
    payload: &[u8],
    id_key: &str,
    method_key: &str,
    result_key: &str,
    error_key: &str,
) -> (r: Option<JsonRpcMessage>)
    ensures
        match r {
            Some(m) => parsed_fields(payload@, id_key@, method_key@, result_key@, error_key@)
                == Some(m@),
            None => parsed_fields(payload@, id_key@, method_key@, result_key@, error_key@)
                is None,
        },
{
    let value: serde_json::Value = serde_json::from_slice(payload).ok()?;
    let method = value.get(method_key);
    Some(
        JsonRpcMessage {
            id: value.get(id_key).and_then(serde_json::Value::as_u64),
            has_method: method.is_some(),
            method: method.and_then(serde_json::Value::as_str).map(str::to_string),
            result: value.get(result_key).map(serde_json::to_vec).and_then(Result::ok),
            error: value.get(error_key).map(serde_json::to_vec).and_then(Result::ok),
        },
    )
}

/// Reads the fields of a JSON-RPC message from its payload: `id`, `method`,
/// `result` and `error`.
pub fn parse_message(payload: &[u8]) -> (r: Option<JsonRpcMessage>)
    ensures
        match r {
            Some(m) => parsed_message(payload@) == Some(m@),
            None => parsed_message(payload@) is None,
        },
{
    parse_fields(payload, "id", "method", "result", "error")
}

/// Whether `uri` is written in the `file` scheme.
pub open spec fn is_file_uri(uri: Seq<char>) -> bool {
    "file://"@.is_prefix_of(uri)
}

/// `url::Url::from_file_path` followed by `String::from`: the URI of an
/// absolute path, which starts with `file://`; `None` where the URL library
/// turns the path down. What counts as an absolute path, and how the path is
/// written in the URI, depends on the platform, so no more is promised.
#[verifier::external_body]
pub(crate) fn file_uri(path: &str) -> (r: Option<String>)
    ensures
        r matches Some(uri) ==> is_file_uri(uri@),
{
    url::Url::from_file_path(path).ok().map(String::from)
}

} // verus!

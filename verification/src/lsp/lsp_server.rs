//! One language server's session: the requests that await a reply, and what
//! an incoming message is.

use std::collections::HashMap;
use vstd::prelude::*;
use crate::lsp::framing::encode_frame;
use crate::lsp::framing::frame_of;
use crate::lsp::json::parse_capabilities;
use crate::lsp::json::parse_message;
use crate::lsp::json::parsed_capabilities;
use crate::lsp::json::parsed_message;
use crate::lsp::json::JsonRpcMessage;
use crate::lsp::json::MessageFields;
use crate::lsp::messages::build_notification;
use crate::lsp::messages::build_request;
use crate::lsp::messages::initialize_params;
use crate::lsp::messages::initialize_text;
use crate::lsp::messages::lit;
use crate::lsp::messages::notification_text;
use crate::lsp::messages::request_text;
use crate::text::chars_eq_str;
use crate::text::chars_of;

verus! {

/// How long a request waits for its reply, in seconds.
pub const REQUEST_TIMEOUT_SECS: u64 = 30;

/// How long the `initialize` request waits for its reply, in seconds.
pub const INITIALIZE_TIMEOUT_SECS: u64 = 60;

/// Why a request to a language server failed.
#[derive(Clone, Debug, PartialEq, Eq)]
pub enum LspError {
    /// No reply came in time.
    LspTimeout,
    /// The session ended before a reply came.
    LspChannelClosed,
    /// The server answered with an error, given here as JSON.
    LspError { error: Vec<u8> },
    /// The path cannot be written as a `file://` URI.
    InvalidPath,
    /// The session has used up its request ids.
    IdsExhausted,
}

/// Why a request ended without a reply.
#[derive(Clone, Copy, Debug, PartialEq, Eq, Structural)]
pub enum RequestFailure {
    /// The timeout passed.
    TimedOut,
    /// The reply slot was closed.
    Closed,
}

/// What an incoming message is.
pub enum MessageKind {
    /// A reply to the request `id`.
    Response { id: u64 },
    /// A notification of the server.
    Notification,
    /// Neither: it is dropped.
    Ignored,
}

/// What a message with these fields is: a reply where it carries a numeric
/// id, else a notification where it names a method, else nothing.
pub open spec fn kind_of(fields: Option<MessageFields>) -> MessageKind {
    match fields {
        None => MessageKind::Ignored,
        Some(m) => match m.id {
            Some(id) => MessageKind::Response { id },
            None => if m.has_method {
                MessageKind::Notification
            } else {
                MessageKind::Ignored
            },
        },
    }
}

/// Tells what a message is from its fields.
pub fn classify(message: &Option<JsonRpcMessage>) -> (r: MessageKind)
    ensures
        r == kind_of(
            match *message {
                Some(m) => Some(m@),
                None => None,
            },
        ),
{
    match message {
        None => MessageKind::Ignored,
        Some(m) => match m.id {
            Some(id) => MessageKind::Response { id },
            None => if m.has_method {
                MessageKind::Notification
            } else {
                MessageKind::Ignored
            },
        },
    }
}

/// What the read loop does with an incoming message.
pub enum Incoming<T> {
    /// Hand `reply` to `slot`, the reply slot of request `id`.
    Deliver { id: u64, slot: T, reply: JsonRpcMessage },
    /// A reply to a request that no longer waits: drop it.
    Unclaimed { id: u64 },
    /// A notification: log it. `is_diagnostics` tells a
    /// `textDocument/publishDiagnostics` from the others.
    Notification { method: Option<String>, is_diagnostics: bool },
    /// Drop it.
    Ignored,
}

/// What a reply holds.
pub open spec fn reply_of(fields: Option<MessageFields>) -> Result<Option<Seq<u8>>, Seq<u8>> {
    match fields {
        None => Ok(None),
        Some(m) => match m.result {
            Some(result) => if result == lit("null"@) {
                Ok(None)
            } else {
                Ok(Some(result))
            },
            None => match m.error {
                Some(error) => Err(error),
                None => Ok(None),
            },
        },
    }
}

/// The capabilities that a reply to `initialize` reports: those that its
/// `result` spells, none where it has no result, a `null` result, an error, or
/// a result that cannot be read as capabilities.
pub open spec fn capabilities_of(fields: Option<MessageFields>) -> Option<Seq<u8>> {
    match reply_of(fields) {
        Ok(Some(result)) => parsed_capabilities(result),
        _ => None,
    }
}

/// Reads a reply: its `result` as JSON, nothing where the result is `null` or
/// missing, or the error that the server reports in place of a result.
pub fn extract_result(message: &Option<JsonRpcMessage>) -> (r: Result<Option<Vec<u8>>, LspError>)
    ensures
        match reply_of(
            match *message {
                Some(m) => Some(m@),
                None => None,
            },
        ) {
            Ok(Some(result)) => r matches Ok(Some(bytes)) && bytes@ == result,
            Ok(None) => r matches Ok(None),
            Err(error) => r matches Err(LspError::LspError { error: bytes }) && bytes@ == error,
        },
{
    match message {
        None => Ok(None),
        Some(m) => match &m.result {
            Some(result) => {
                let null = "null".as_bytes();
                if bytes_eq(result.as_slice(), null) {
                    Ok(None)
                } else {
                    Ok(Some(result.clone()))
                }
            },
            None => match &m.error {
                Some(error) => Err(LspError::LspError { error: error.clone() }),
                None => Ok(None),
            },
        },
    }
}

/// Whether two byte strings are equal.
pub fn bytes_eq(a: &[u8], b: &[u8]) -> (r: bool)
    ensures
        r == (a@ == b@),
{
    if a.len() != b.len() {
        return false;
    }
    let mut i: usize = 0;
    while i < a.len()
        invariant
            i <= a.len(),
            a.len() == b.len(),
            forall|j: int| 0 <= j < i ==> a@[j] == b@[j],
        decreases a.len() - i,
    {
        if a[i] != b[i] {
            return false;
        }
        i += 1;
    }
    assert(a@ =~= b@);
    true
}

/// The session of one language server. `T` is the reply slot that the caller
/// keeps for each request that awaits its reply.
pub struct LspServer<T> {
    request_counter: u64,
    pending_requests: HashMap<u64, T>,
    server_capabilities: Option<Vec<u8>>,
}

impl<T> LspServer<T> {
    /// The id that the next request gets.
    pub closed spec fn next_id(&self) -> u64 {
        self.request_counter
    }

    /// The reply slot of each request that awaits its reply.
    pub closed spec fn pending(&self) -> Map<u64, T> {
        self.pending_requests@
    }

    /// The capabilities that the server reported, as JSON.
    pub closed spec fn capabilities(&self) -> Option<Seq<u8>> {
        match self.server_capabilities {
            Some(c) => Some(c@),
            None => None,
        }
    }

    /// The session's invariant: every id that awaits a reply was handed out.
    pub open spec fn wf(&self) -> bool {
        forall|id: u64| #[trigger] self.pending().contains_key(id) ==> id < self.next_id()
    }

    /// A session without requests.
    pub fn new() -> (r: Self)
        ensures
            r.wf(),
            r.next_id() == 0,
            r.pending() == Map::<u64, T>::empty(),
            r.capabilities() is None,
    {
        LspServer { request_counter: 0, pending_requests: HashMap::new(), server_capabilities: None }
    }

    /// A session without requests whose request ids start at `first_id`.
    pub fn starting_at(first_id: u64) -> (r: Self)
        ensures
            r.wf(),
            r.next_id() == first_id,
            r.pending() == Map::<u64, T>::empty(),
            r.capabilities() is None,
    {
        LspServer {
            request_counter: first_id,
            pending_requests: HashMap::new(),
            server_capabilities: None,
        }
    }

    /// The number of requests that await their reply.
    pub fn pending_count(&self) -> (r: usize)
        ensures
            r == self.pending().len(),
    {
        self.pending_requests.len()
    }

    /// Whether the request `id` awaits its reply.
    pub fn is_pending(&self, id: u64) -> (r: bool)
        ensures
            r == self.pending().contains_key(id),
    {
        self.pending_requests.contains_key(&id)
    }

    /// Starts a request: gives it a fresh id, keeps `slot` for its reply, and
    /// returns the id with the frame to send.
    pub fn send_request(&mut self, method: &str, params: &[u8], slot: T) -> (r: Result<
        (u64, Vec<u8>),
        LspError,
    >)
        requires
            old(self).wf(),
        ensures
            final(self).wf(),
            final(self).capabilities() == old(self).capabilities(),
            old(self).next_id() == u64::MAX ==> (r matches Err(LspError::IdsExhausted) && final(self).pending() == old(self).pending() && final(self).next_id() == old(self).next_id()),
            old(self).next_id() < u64::MAX ==> (r matches Ok((id, frame)) && id == old(self).next_id() && !old(self).pending().contains_key(id) && final(self).next_id() == id
                + 1 && final(self).pending() == old(self).pending().insert(id, slot) && frame@
                == frame_of(request_text(id, method@, params@))),
    {
        if self.request_counter == u64::MAX {
            return Err(LspError::IdsExhausted);
        }
        let id = self.request_counter;
        assert(!self.pending().contains_key(id));
        self.request_counter = id + 1;
        self.pending_requests.insert(id, slot);
        let payload = build_request(id, method, params);
        Ok((id, encode_frame(payload.as_slice())))
    }

    /// A request that ended without a reply: its slot is given up, and the
    /// error to report is returned.
    pub fn fail_request(&mut self, id: u64, failure: RequestFailure) -> (r: LspError)
        requires
            old(self).wf(),
        ensures
            final(self).wf(),
            final(self).next_id() == old(self).next_id(),
            final(self).capabilities() == old(self).capabilities(),
            final(self).pending() == old(self).pending().remove(id),
            r == (match failure {
                RequestFailure::TimedOut => LspError::LspTimeout,
                RequestFailure::Closed => LspError::LspChannelClosed,
            }),
    {
        self.pending_requests.remove(&id);
        proof {
            assert forall|other: u64| #[trigger]
                self.pending().contains_key(other) implies other < self.next_id() by {
                assert(old(self).pending().contains_key(other));
            }
        }
        match failure {
            RequestFailure::TimedOut => LspError::LspTimeout,
            RequestFailure::Closed => LspError::LspChannelClosed,
        }
    }

    /// Takes in a message whose fields were read: a reply releases the slot of
    /// its request, once.
    pub fn dispatch(&mut self, message: Option<JsonRpcMessage>) -> (r: Incoming<T>)
        requires
            old(self).wf(),
        ensures
            final(self).wf(),
            final(self).next_id() == old(self).next_id(),
            final(self).capabilities() == old(self).capabilities(),
            match kind_of(
                match message {
                    Some(m) => Some(m@),
                    None => None,
                },
            ) {
                MessageKind::Response { id } => {
                    &&& final(self).pending() == old(self).pending().remove(id)
                    &&& if old(self).pending().contains_key(id) {
                        r matches Incoming::Deliver { id: to, slot, reply } && to == id && slot
                            == old(self).pending()[id] && reply == message->Some_0
                    } else {
                        r matches Incoming::Unclaimed { id: to } && to == id
                    }
                },
                MessageKind::Notification => {
                    &&& final(self).pending() == old(self).pending()
                    &&& r matches Incoming::Notification { method, is_diagnostics }
                    &&& method == message->Some_0.method
                    &&& is_diagnostics == (message->Some_0@.method == Some(
                        "textDocument/publishDiagnostics"@,
                    ))
                },
                MessageKind::Ignored => {
                    &&& final(self).pending() == old(self).pending()
                    &&& r is Ignored
                },
            },
    {
        let kind = classify(&message);
        match message {
            None => Incoming::Ignored,
            Some(reply) => match kind {
                MessageKind::Response { id } => {
                    let released = self.pending_requests.remove(&id);
                    proof {
                        assert forall|other: u64| #[trigger]
                            self.pending().contains_key(other) implies other < self.next_id() by {
                            assert(old(self).pending().contains_key(other));
                        }
                    }
                    match released {
                        Some(slot) => Incoming::Deliver { id, slot, reply },
                        None => Incoming::Unclaimed { id },
                    }
                },
                MessageKind::Notification => {
                    let is_diagnostics = match &reply.method {
                        Some(name) => {
                            let chars = chars_of(name.as_str());
                            chars_eq_str(&chars, "textDocument/publishDiagnostics")
                        },
                        None => false,
                    };
                    Incoming::Notification { method: reply.method, is_diagnostics }
                },
                MessageKind::Ignored => Incoming::Ignored,
            },
        }
    }

    /// Takes in the payload of a frame that came from the server.
    pub fn handle_message(&mut self, payload: &[u8]) -> (r: Incoming<T>)
        requires
            old(self).wf(),
        ensures
            final(self).wf(),
            final(self).next_id() == old(self).next_id(),
            final(self).capabilities() == old(self).capabilities(),
            match kind_of(parsed_message(payload@)) {
                MessageKind::Response { id } => {
                    &&& final(self).pending() == old(self).pending().remove(id)
                    &&& if old(self).pending().contains_key(id) {
                        r matches Incoming::Deliver { id: to, slot, reply } && to == id && slot
                            == old(self).pending()[id] && Some(reply@) == parsed_message(payload@)
                    } else {
                        r matches Incoming::Unclaimed { id: to } && to == id
                    }
                },
                MessageKind::Notification => {
                    &&& final(self).pending() == old(self).pending()
                    &&& r matches Incoming::Notification { method, is_diagnostics }
                    &&& method.deep_view() == parsed_message(payload@)->Some_0.method
                    &&& is_diagnostics == (parsed_message(payload@)->Some_0.method == Some(
                        "textDocument/publishDiagnostics"@,
                    ))
                },
                MessageKind::Ignored => {
                    &&& final(self).pending() == old(self).pending()
                    &&& r is Ignored
                },
            },
    {
        let message = parse_message(payload);
        self.dispatch(message)
    }

    /// The frame of a notification.
    pub fn send_notification(&self, method: &str, params: &[u8]) -> (r: Vec<u8>)
        ensures
            r@ == frame_of(notification_text(method@, params@)),
    {
        let payload = build_notification(method, params);
        encode_frame(payload.as_slice())
    }

    /// Starts the `initialize` request of a fresh session for the workspace
    /// with the URI `workspace_uri`. The reply is awaited for
    /// `INITIALIZE_TIMEOUT_SECS`.
    pub fn initialize(
        &mut self,
        process_id: u32,
        workspace_uri: &str,
        folder_name: &str,
        initialization_options: Option<&[u8]>,
        slot: T,
    ) -> (r: Result<(u64, Vec<u8>), LspError>)
        requires
            old(self).wf(),
        ensures
            final(self).wf(),
            final(self).capabilities() == old(self).capabilities(),
            old(self).next_id() == u64::MAX ==> (r matches Err(LspError::IdsExhausted) && final(self).pending() == old(self).pending() && final(self).next_id() == old(self).next_id()),
            old(self).next_id() < u64::MAX ==> (r matches Ok((id, frame)) && id == old(self).next_id() && final(self).next_id() == id + 1 && final(self).pending() == old(self).pending().insert(id, slot) && frame@ == frame_of(
                request_text(
                    id,
                    "initialize"@,
                    initialize_text(
                        process_id,
                        workspace_uri@,
                        folder_name@,
                        match initialization_options {
                            Some(options) => Some(options@),
                            None => None,
                        },
                    ),
                ),
            )),
    {
        let params = initialize_params(
            process_id,
            workspace_uri,
            folder_name,
            initialization_options,
        );
        self.send_request("initialize", params.as_slice(), slot)
    }

    /// Ends the initialisation with the fields of the reply to `initialize`,
    /// the capabilities already read from its result: keeps `capabilities`,
    /// and returns the frame of the `initialized` notification.
    pub fn finish_initialization(&mut self, capabilities: Option<Vec<u8>>) -> (r: Vec<u8>)
        ensures
            final(self).next_id() == old(self).next_id(),
            final(self).pending() == old(self).pending(),
            final(self).capabilities() == capabilities.deep_view(),
            r@ == frame_of(notification_text("initialized"@, lit("{}"@))),
    {
        self.server_capabilities = capabilities;
        self.send_notification("initialized", "{}".as_bytes())
    }

    /// Ends the initialisation with the fields of the reply to `initialize`:
    /// keeps the capabilities that its `result` spells, or none where the
    /// reply has no result or the result cannot be read as capabilities, and
    /// returns the frame of the `initialized` notification. A reply that
    /// cannot be read does not end the session.
    pub fn complete_initialization(&mut self, reply: &Option<JsonRpcMessage>) -> (r: Vec<u8>)
        ensures
            final(self).next_id() == old(self).next_id(),
            final(self).pending() == old(self).pending(),
            final(self).capabilities() == capabilities_of(
                match *reply {
                    Some(m) => Some(m@),
                    None => None,
                },
            ),
            r@ == frame_of(notification_text("initialized"@, lit("{}"@))),
    {
        let capabilities = match extract_result(reply) {
            Ok(Some(result)) => parse_capabilities(result.as_slice()),
            _ => None,
        };
        self.finish_initialization(capabilities)
    }

    /// The capabilities that the server reported, as JSON.
    pub fn server_capabilities(&self) -> (r: &Option<Vec<u8>>)
        ensures
            r.deep_view() == self.capabilities(),
    {
        &self.server_capabilities
    }
}

/// A reply releases the slot of its request once: after the first reply to
/// `id` the request no longer waits, and a second reply changes nothing.
pub proof fn lemma_reply_releases_once<T>(pending: Map<u64, T>, id: u64)
    ensures
        !pending.remove(id).contains_key(id),
        pending.remove(id).remove(id) == pending.remove(id),
{
    assert(pending.remove(id).remove(id) =~= pending.remove(id));
}

/// A request joins those that wait with exactly one slot, under an id that no
/// other waiting request has, and the others keep their slots.
pub proof fn lemma_request_registers_once<T>(pending: Map<u64, T>, next_id: u64, slot: T, other: u64)
    requires
        forall|id: u64| #[trigger] pending.contains_key(id) ==> id < next_id,
        other != next_id,
    ensures
        !pending.contains_key(next_id),
        pending.insert(next_id, slot).contains_key(next_id),
        pending.insert(next_id, slot)[next_id] == slot,
        pending.insert(next_id, slot).contains_key(other) == pending.contains_key(other),
        pending.contains_key(other) ==> pending.insert(next_id, slot)[other] == pending[other],
{
}

} // verus!

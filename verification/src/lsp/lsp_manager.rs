//! Which language server serves which file, and what to tell it.

use vstd::hash_map::StringHashMap;
use vstd::prelude::*;
use crate::lsp::framing::encode_frame;
use crate::lsp::framing::frame_of;
use crate::lsp::json::file_uri;
use crate::lsp::json::is_file_uri;
use crate::lsp::messages::build_notification;
use crate::lsp::messages::did_change_params;
use crate::lsp::messages::did_change_text;
use crate::lsp::messages::did_close_params;
use crate::lsp::messages::did_close_text;
use crate::lsp::messages::did_open_params;
use crate::lsp::messages::did_open_text;
use crate::lsp::messages::did_save_params;
use crate::lsp::messages::did_save_text;
use crate::lsp::messages::notification_text;
use crate::lsp::messages::position_params;
use crate::lsp::messages::position_text;
use crate::lsp::lsp_server::LspError;
use crate::lsp::types::LspConfiguration;
use crate::lsp::types::Position;
use crate::utils::path_utils::extension;
use crate::utils::path_utils::extension_of;

verus! {

/// What became of the attempt to start a server.
#[derive(Clone, Copy, Debug, PartialEq, Eq, Structural)]
pub enum ServerStatus {
    /// The server runs and was initialised.
    Active,
    /// The server could not be started or initialised. It is not tried again.
    Failed,
}

/// What to do for a file that may have a language server.
#[derive(Clone, Debug, PartialEq, Eq)]
pub enum ServerLookup {
    /// No server is available for the file.
    NoServer,
    /// The server `name` runs.
    Active { name: String },
    /// The server has to be started with `config` first.
    Start { config: LspConfiguration },
}

/// A message for a server: which server, and the frame to send.
#[derive(Clone, Debug, PartialEq, Eq)]
pub struct Outgoing {
    pub server: String,
    pub frame: Vec<u8>,
}

/// A request for a server, not yet numbered: which server, the method and its
/// parameters.
#[derive(Clone, Debug, PartialEq, Eq)]
pub struct PendingCall {
    pub server: String,
    pub method: String,
    pub params: Vec<u8>,
}

/// The map from extension to server name after the first `upto` extensions of
/// `config` were entered.
pub open spec fn with_extensions(
    map: Map<Seq<char>, Seq<char>>,
    config: LspConfiguration,
    upto: int,
) -> Map<Seq<char>, Seq<char>>
    decreases upto,
{
    if upto <= 0 {
        map
    } else {
        with_extensions(map, config, upto - 1).insert(
            config.file_extensions[upto - 1]@,
            config.name@,
        )
    }
}

/// The map from extension to server name that `configs` give: where two
/// configurations name one extension, the later one has it.
pub open spec fn extension_map_of(configs: Seq<LspConfiguration>) -> Map<Seq<char>, Seq<char>>
    decreases configs.len(),
{
    if configs.len() == 0 {
        Map::empty()
    } else {
        with_extensions(
            extension_map_of(configs.drop_last()),
            configs.last(),
            configs.last().file_extensions.len() as int,
        )
    }
}

/// The configuration of each server name: of two with one name, the later.
pub open spec fn config_map_of(configs: Seq<LspConfiguration>) -> Map<Seq<char>, LspConfiguration>
    decreases configs.len(),
{
    if configs.len() == 0 {
        Map::empty()
    } else {
        config_map_of(configs.drop_last()).insert(configs.last().name@, configs.last())
    }
}

/// The language id that a server is told for a file: its extension, or
/// `plaintext` where it has none.
pub open spec fn language_id_of(path: Seq<char>) -> Seq<char> {
    match extension_of(path) {
        Some(ext) => ext,
        None => "plaintext"@,
    }
}

/// The language servers of a workspace.
pub struct LspManager {
    workspace_path: String,
    extension_map: StringHashMap<String>,
    server_configs: StringHashMap<LspConfiguration>,
    active_servers: StringHashMap<ServerStatus>,
}

impl LspManager {
    /// The path of the workspace root.
    pub closed spec fn workspace(&self) -> Seq<char> {
        self.workspace_path@
    }

    /// The server name for each extension.
    pub closed spec fn extensions(&self) -> Map<Seq<char>, Seq<char>> {
        self.extension_map@.map_values(|name: String| name@)
    }

    /// The configuration of each server.
    pub closed spec fn configs(&self) -> Map<Seq<char>, LspConfiguration> {
        self.server_configs@
    }

    /// What became of each server that was tried.
    pub closed spec fn statuses(&self) -> Map<Seq<char>, ServerStatus> {
        self.active_servers@
    }

    /// The name of the server that runs for `path`, if one does.
    pub open spec fn active_server(&self, path: Seq<char>) -> Option<Seq<char>> {
        match extension_of(path) {
            None => None,
            Some(ext) => if self.extensions().contains_key(ext) && self.statuses().contains_key(
                self.extensions()[ext],
            ) && self.statuses()[self.extensions()[ext]] == ServerStatus::Active {
                Some(self.extensions()[ext])
            } else {
                None
            },
        }
    }

    /// A manager for the workspace at `workspace_path` with the servers that
    /// `configs` describe. No server runs yet.
    pub fn new(workspace_path: String, configs: Vec<LspConfiguration>) -> (r: Self)
        ensures
            r.workspace() == workspace_path@,
            r.extensions() == extension_map_of(configs@),
            r.configs() == config_map_of(configs@),
            r.statuses() == Map::<Seq<char>, ServerStatus>::empty(),
    {
        let mut extension_map: StringHashMap<String> = StringHashMap::new();
        let mut server_configs: StringHashMap<LspConfiguration> = StringHashMap::new();
        let ghost all = configs@;
        let mut configs = configs;
        let mut done: usize = 0;
        let total = configs.len();
        assert(all.take(0) =~= Seq::<LspConfiguration>::empty());
        assert(extension_map@.map_values(|name: String| name@) =~= Map::<
            Seq<char>,
            Seq<char>,
        >::empty());
        while configs.len() > 0
            invariant
                done + configs.len() == total == all.len(),
                configs@ == all.skip(done as int),
                extension_map@.map_values(|name: String| name@) == extension_map_of(
                    all.take(done as int),
                ),
                server_configs@ == config_map_of(all.take(done as int)),
            decreases configs.len(),
        {
            let config = configs.remove(0);
            assert(config == all[done as int]);
            assert(configs@ =~= all.skip(done + 1));
            assert(all.take(done + 1).drop_last() =~= all.take(done as int));
            assert(all.take(done + 1).last() == config);
            let ghost base = extension_map_of(all.take(done as int));
            let mut k: usize = 0;
            while k < config.file_extensions.len()
                invariant
                    k <= config.file_extensions.len(),
                    extension_map@.map_values(|name: String| name@) == with_extensions(
                        base,
                        config,
                        k as int,
                    ),
                decreases config.file_extensions.len() - k,
            {
                let ghost before = extension_map@;
                extension_map.insert(config.file_extensions[k].clone(), config.name.clone());
                assert(extension_map@.map_values(|name: String| name@) =~= before.map_values(
                    |name: String| name@,
                ).insert(config.file_extensions[k as int]@, config.name@));
                k += 1;
            }
            server_configs.insert(config.name.clone(), config);
            done += 1;
        }
        assert(all.take(done as int) =~= all);
        LspManager {
            workspace_path,
            extension_map,
            server_configs,
            active_servers: StringHashMap::new(),
        }
    }

    /// The path of the workspace root.
    pub fn workspace_path(&self) -> (r: &String)
        ensures
            r@ == self.workspace(),
    {
        &self.workspace_path
    }

    /// The name of the server that is configured for `path`, running or not.
    pub fn server_name(&self, path: &str) -> (r: Option<String>)
        ensures
            match extension_of(path@) {
                Some(ext) => if self.extensions().contains_key(ext) {
                    r is Some && r->Some_0@ == self.extensions()[ext]
                } else {
                    r is None
                },
                None => r is None,
            },
    {
        let ext = match extension(path) {
            Some(ext) => ext,
            None => {
                return None;
            },
        };
        match self.extension_map.get(ext.as_str()) {
            Some(name) => Some(name.clone()),
            None => None,
        }
    }

    /// What to do for `path`: nothing where no server is configured for its
    /// extension or the server has failed, use the server where it runs, start
    /// it where it was not tried yet.
    pub fn get_server(&self, path: &str) -> (r: ServerLookup)
        ensures
            match extension_of(path@) {
                None => r is NoServer,
                Some(ext) => if !self.extensions().contains_key(ext) {
                    r is NoServer
                } else {
                    let name = self.extensions()[ext];
                    if self.statuses().contains_key(name) {
                        match self.statuses()[name] {
                            ServerStatus::Active => r matches ServerLookup::Active { name: n }
                                && n@ == name,
                            ServerStatus::Failed => r is NoServer,
                        }
                    } else if self.configs().contains_key(name) {
                        r matches ServerLookup::Start { config } && config.name
                            == self.configs()[name].name && config.server_path
                            == self.configs()[name].server_path
                            && config.server_args.deep_view()
                            == self.configs()[name].server_args.deep_view()
                            && config.file_extensions.deep_view()
                            == self.configs()[name].file_extensions.deep_view()
                            && config.initialization_options.deep_view()
                            == self.configs()[name].initialization_options.deep_view()
                    } else {
                        r is NoServer
                    }
                },
            },
            r matches ServerLookup::Active { name } ==> self.active_server(path@) == Some(name@),
            !(r is Active) ==> self.active_server(path@) is None,
    {
        let name = match self.server_name(path) {
            Some(name) => name,
            None => {
                return ServerLookup::NoServer;
            },
        };
        let status = match self.active_servers.get(name.as_str()) {
            Some(status) => Some(*status),
            None => None,
        };
        match status {
            Some(ServerStatus::Active) => ServerLookup::Active { name },
            Some(ServerStatus::Failed) => ServerLookup::NoServer,
            None => match self.server_configs.get(name.as_str()) {
                Some(config) => ServerLookup::Start { config: config.duplicate() },
                None => ServerLookup::NoServer,
            },
        }
    }

    /// Records that the server `name` runs and was initialised.
    pub fn server_started(&mut self, name: &str)
        ensures
            final(self).workspace() == old(self).workspace(),
            final(self).extensions() == old(self).extensions(),
            final(self).configs() == old(self).configs(),
            final(self).statuses() == old(self).statuses().insert(name@, ServerStatus::Active),
    {
        self.active_servers.insert(name.to_owned(), ServerStatus::Active);
    }

    /// Records that the server `name` could not be started or initialised:
    /// from now on its files have no server.
    pub fn server_failed(&mut self, name: &str)
        ensures
            final(self).workspace() == old(self).workspace(),
            final(self).extensions() == old(self).extensions(),
            final(self).configs() == old(self).configs(),
            final(self).statuses() == old(self).statuses().insert(name@, ServerStatus::Failed),
    {
        self.active_servers.insert(name.to_owned(), ServerStatus::Failed);
    }

    /// The language id that a server is told for `path`.
    pub fn language_id(path: &str) -> (r: String)
        ensures
            r@ == language_id_of(path@),
    {
        match extension(path) {
            Some(ext) => ext,
            None => "plaintext".to_owned(),
        }
    }

    /// The name of the server that runs for `path`, if one does.
    pub fn running_server(&self, path: &str) -> (r: Option<String>)
        ensures
            match self.active_server(path@) {
                Some(name) => r is Some && r->Some_0@ == name,
                None => r is None,
            },
    {
        match self.get_server(path) {
            ServerLookup::Active { name } => Some(name),
            _ => None,
        }
    }

    /// The notification that tells the server of `path` that the document was
    /// opened with the text `content` at `version`. Where no server runs for
    /// `path` there is nothing to send, and that is no error. Where one runs
    /// and `path` cannot be written as a URI, the notification fails.
    pub fn notify_document_opened(&self, path: &str, content: &str, version: i32) -> (r: Result<
        Option<Outgoing>,
        LspError,
    >)
        ensures
            match r {
                Ok(Some(out)) => self.active_server(path@) == Some(out.server@) && exists|uri: Seq<char>|
                    is_file_uri(uri) && out.frame@ == frame_of(
                        notification_text(
                            "textDocument/didOpen"@,
                            did_open_text(uri, language_id_of(path@), version, content@),
                        ),
                    ),
                Ok(None) => self.active_server(path@) is None,
                Err(e) => e == LspError::InvalidPath && self.active_server(path@) is Some,
            },
            self.active_server(path@) is None ==> r matches Ok(None),
    {
        let server = match self.running_server(path) {
            Some(server) => server,
            None => {
                return Ok(None);
            },
        };
        let uri = match file_uri(path) {
            Some(uri) => uri,
            None => {
                return Err(LspError::InvalidPath);
            },
        };
        let language_id = Self::language_id(path);
        let frame = opened_frame(uri.as_str(), language_id.as_str(), version, content);
        Ok(Some(Outgoing { server, frame }))
    }

    /// The notification that tells the server of `path` that the document now
    /// holds `text` at `version`.
    pub fn notify_document_changed(&self, path: &str, text: &str, version: i32) -> (r: Result<
        Option<Outgoing>,
        LspError,
    >)
        ensures
            match r {
                Ok(Some(out)) => self.active_server(path@) == Some(out.server@) && exists|uri: Seq<char>|
                    is_file_uri(uri) && out.frame@ == frame_of(
                        notification_text(
                            "textDocument/didChange"@,
                            did_change_text(uri, version, text@),
                        ),
                    ),
                Ok(None) => self.active_server(path@) is None,
                Err(e) => e == LspError::InvalidPath && self.active_server(path@) is Some,
            },
            self.active_server(path@) is None ==> r matches Ok(None),
    {
        let server = match self.running_server(path) {
            Some(server) => server,
            None => {
                return Ok(None);
            },
        };
        let uri = match file_uri(path) {
            Some(uri) => uri,
            None => {
                return Err(LspError::InvalidPath);
            },
        };
        let frame = changed_frame(uri.as_str(), version, text);
        Ok(Some(Outgoing { server, frame }))
    }

    /// The notification that tells the server of `path` that the document was
    /// saved with the text `text` at `version`.
    pub fn notify_document_saved(&self, path: &str, text: &str, version: i32) -> (r: Result<
        Option<Outgoing>,
        LspError,
    >)
        ensures
            match r {
                Ok(Some(out)) => self.active_server(path@) == Some(out.server@) && exists|uri: Seq<char>|
                    is_file_uri(uri) && out.frame@ == frame_of(
                        notification_text(
                            "textDocument/didSave"@,
                            did_save_text(uri, version, text@),
                        ),
                    ),
                Ok(None) => self.active_server(path@) is None,
                Err(e) => e == LspError::InvalidPath && self.active_server(path@) is Some,
            },
            self.active_server(path@) is None ==> r matches Ok(None),
    {
        let server = match self.running_server(path) {
            Some(server) => server,
            None => {
                return Ok(None);
            },
        };
        let uri = match file_uri(path) {
            Some(uri) => uri,
            None => {
                return Err(LspError::InvalidPath);
            },
        };
        let frame = saved_frame(uri.as_str(), version, text);
        Ok(Some(Outgoing { server, frame }))
    }

    /// The notification that tells the server of `path` that the document was
    /// closed.
    pub fn notify_document_closed(&self, path: &str) -> (r: Result<Option<Outgoing>, LspError>)
        ensures
            match r {
                Ok(Some(out)) => self.active_server(path@) == Some(out.server@) && exists|uri: Seq<char>|
                    is_file_uri(uri) && out.frame@ == frame_of(
                        notification_text("textDocument/didClose"@, did_close_text(uri)),
                    ),
                Ok(None) => self.active_server(path@) is None,
                Err(e) => e == LspError::InvalidPath && self.active_server(path@) is Some,
            },
            self.active_server(path@) is None ==> r matches Ok(None),
    {
        let server = match self.running_server(path) {
            Some(server) => server,
            None => {
                return Ok(None);
            },
        };
        let uri = match file_uri(path) {
            Some(uri) => uri,
            None => {
                return Err(LspError::InvalidPath);
            },
        };
        let frame = closed_frame(uri.as_str());
        Ok(Some(Outgoing { server, frame }))
    }

    /// The request `method` about `position` in `path`, for the server that
    /// runs for `path`. Nothing where none does.
    pub fn send_request_with_uri(&self, path: &str, method: &str, position: Position) -> (r:
        Result<Option<PendingCall>, LspError>)
        ensures
            match r {
                Ok(Some(call)) => self.active_server(path@) == Some(call.server@) && call.method@
                    == method@ && exists|uri: Seq<char>|
                    is_file_uri(uri) && call.params@ == position_text(uri, position.line, position.character),
                Ok(None) => self.active_server(path@) is None,
                Err(e) => e == LspError::InvalidPath && self.active_server(path@) is Some,
            },
    {
        let server = match self.running_server(path) {
            Some(server) => server,
            None => {
                return Ok(None);
            },
        };
        let uri = match file_uri(path) {
            Some(uri) => uri,
            None => {
                return Err(LspError::InvalidPath);
            },
        };
        let params = position_params(uri.as_str(), position.line, position.character);
        Ok(Some(PendingCall { server, method: method.to_owned(), params }))
    }

    /// The request for completions at `position` in `path`.
    pub fn get_completions(&self, path: &str, position: Position) -> (r: Result<
        Option<PendingCall>,
        LspError,
    >)
        ensures
            match r {
                Ok(Some(call)) => self.active_server(path@) == Some(call.server@) && call.method@
                    == "textDocument/completion"@ && exists|uri: Seq<char>|
                    is_file_uri(uri) && call.params@ == position_text(uri, position.line, position.character),
                Ok(None) => self.active_server(path@) is None,
                Err(e) => e == LspError::InvalidPath && self.active_server(path@) is Some,
            },
    {
        self.send_request_with_uri(path, "textDocument/completion", position)
    }

    /// The request for the hover text at `position` in `path`.
    pub fn get_hover(&self, path: &str, position: Position) -> (r: Result<
        Option<PendingCall>,
        LspError,
    >)
        ensures
            match r {
                Ok(Some(call)) => self.active_server(path@) == Some(call.server@) && call.method@
                    == "textDocument/hover"@ && exists|uri: Seq<char>|
                    is_file_uri(uri) && call.params@ == position_text(uri, position.line, position.character),
                Ok(None) => self.active_server(path@) is None,
                Err(e) => e == LspError::InvalidPath && self.active_server(path@) is Some,
            },
    {
        self.send_request_with_uri(path, "textDocument/hover", position)
    }

    /// The request for the definition of what stands at `position` in `path`.
    pub fn get_definition(&self, path: &str, position: Position) -> (r: Result<
        Option<PendingCall>,
        LspError,
    >)
        ensures
            match r {
                Ok(Some(call)) => self.active_server(path@) == Some(call.server@) && call.method@
                    == "textDocument/definition"@ && exists|uri: Seq<char>|
                    is_file_uri(uri) && call.params@ == position_text(uri, position.line, position.character),
                Ok(None) => self.active_server(path@) is None,
                Err(e) => e == LspError::InvalidPath && self.active_server(path@) is Some,
            },
    {
        self.send_request_with_uri(path, "textDocument/definition", position)
    }
}

/// The frame of the `textDocument/didOpen` notification for the document with
/// the URI `uri`.
pub fn opened_frame(uri: &str, language_id: &str, version: i32, content: &str) -> (r: Vec<u8>)
    ensures
        r@ == frame_of(
            notification_text(
                "textDocument/didOpen"@,
                did_open_text(uri@, language_id@, version, content@),
            ),
        ),
{
    let params = did_open_params(uri, language_id, version, content);
    let payload = build_notification("textDocument/didOpen", params.as_slice());
    encode_frame(payload.as_slice())
}

/// The frame of the `textDocument/didChange` notification for the document
/// with the URI `uri`.
pub fn changed_frame(uri: &str, version: i32, text: &str) -> (r: Vec<u8>)
    ensures
        r@ == frame_of(
            notification_text("textDocument/didChange"@, did_change_text(uri@, version, text@)),
        ),
{
    let params = did_change_params(uri, version, text);
    let payload = build_notification("textDocument/didChange", params.as_slice());
    encode_frame(payload.as_slice())
}

/// The frame of the `textDocument/didSave` notification for the document with
/// the URI `uri`.
pub fn saved_frame(uri: &str, version: i32, text: &str) -> (r: Vec<u8>)
    ensures
        r@ == frame_of(
            notification_text("textDocument/didSave"@, did_save_text(uri@, version, text@)),
        ),
{
    let params = did_save_params(uri, version, text);
    let payload = build_notification("textDocument/didSave", params.as_slice());
    encode_frame(payload.as_slice())
}

/// The frame of the `textDocument/didClose` notification for the document
/// with the URI `uri`.
pub fn closed_frame(uri: &str) -> (r: Vec<u8>)
    ensures
        r@ == frame_of(notification_text("textDocument/didClose"@, did_close_text(uri@))),
{
    let params = did_close_params(uri);
    let payload = build_notification("textDocument/didClose", params.as_slice());
    encode_frame(payload.as_slice())
}

} // verus!

//! The document model: which documents are open, at which version, and what
//! text the cache holds for them.

use vstd::hash_map::StringHashMap;
use vstd::prelude::*;
use crate::file_system::content_cache::entries_after_insert;
use crate::file_system::content_cache::order_after_insert;
use crate::file_system::content_cache::CacheEntry;
use crate::file_system::content_cache::ContentCache;
use crate::file_system::diff::applied;
use crate::file_system::diff::apply_changes;
use crate::file_system::encoding::decode_content;
use crate::file_system::encoding::decoding;
use crate::file_system::encoding::detect_encoding;
use crate::file_system::encoding::detect_file_type;
use crate::file_system::encoding::encoding_of;
use crate::file_system::encoding::file_type_of;
use crate::file_system::file_event::FileMetadata;
use crate::file_system::line_ending::detect_line_ending;
use crate::file_system::line_ending::line_ending_of;
use crate::text::byte_len;
use crate::text::utf8_len;

verus! {

/// The largest file that is opened as a document: 10 MiB.
pub const MAX_FILE_SIZE: u64 = 10 * 1024 * 1024;

/// The byte budget of the content cache: 1 MiB.
pub const CACHE_SIZE_LIMIT: u64 = 1024 * 1024;

/// A document and the version that the client holds or proposes for it.
#[derive(Clone, Debug, PartialEq, Eq)]
pub struct VersionedDocument {
    pub uri: String,
    pub version: i32,
}

/// What a file holds, as far as a look at its first bytes tells.
#[derive(Clone, Copy, Debug, PartialEq, Eq, Structural)]
pub enum FileType {
    Text,
    Binary,
    SymLink,
    Unknown,
}

/// How the lines of a text end.
#[derive(Clone, Copy, Debug, PartialEq, Eq, Structural)]
pub enum LineEnding {
    CRLF,
    LF,
    Mixed,
}

/// The encoding that was detected for a file, and how sure the detector is,
/// in percent.
#[derive(Clone, Debug, PartialEq, Eq)]
pub struct FileEncoding {
    pub encoding: String,
    pub confidence_percent: u8,
}

/// What is known of a document besides its text.
#[derive(Clone, Debug, PartialEq, Eq)]
pub struct DocumentMetadata {
    pub size: u64,
    pub is_directory: bool,
    pub is_symlink: bool,
    pub created_at: Option<u64>,
    pub modified_at: Option<u64>,
    pub readonly: bool,
    pub file_type: FileType,
    pub encoding: FileEncoding,
    pub line_ending: LineEnding,
}

impl DocumentMetadata {
    /// Whether the metadata says of a document what `stat` says of its file,
    /// with this type, encoding and line ending.
    pub open spec fn describes(
        &self,
        stat: FileMetadata,
        file_type: FileType,
        encoding: (Seq<char>, u8),
        line_ending: LineEnding,
    ) -> bool {
        &&& self.size == stat.size
        &&& self.is_directory == stat.is_directory
        &&& self.is_symlink == stat.is_symlink
        &&& self.created_at == stat.created_at
        &&& self.modified_at == stat.modified_at
        &&& self.readonly == stat.readonly
        &&& self.file_type == file_type
        &&& self.encoding.encoding@ == encoding.0
        &&& self.encoding.confidence_percent == encoding.1
        &&& self.line_ending == line_ending
    }

    /// The metadata of a document whose file has the attributes `stat`.
    pub fn from_stat(
        stat: &FileMetadata,
        file_type: FileType,
        encoding: FileEncoding,
        line_ending: LineEnding,
    ) -> (r: DocumentMetadata)
        ensures
            r.describes(
                *stat,
                file_type,
                (encoding.encoding@, encoding.confidence_percent),
                line_ending,
            ),
            r.encoding == encoding,
    {
        DocumentMetadata {
            size: stat.size,
            is_directory: stat.is_directory,
            is_symlink: stat.is_symlink,
            created_at: stat.created_at,
            modified_at: stat.modified_at,
            readonly: stat.readonly,
            file_type,
            encoding,
            line_ending,
        }
    }

    /// A copy of the metadata.
    pub fn duplicate(&self) -> (r: DocumentMetadata)
        ensures
            r == *self,
    {
        DocumentMetadata {
            size: self.size,
            is_directory: self.is_directory,
            is_symlink: self.is_symlink,
            created_at: self.created_at,
            modified_at: self.modified_at,
            readonly: self.readonly,
            file_type: self.file_type,
            encoding: FileEncoding {
                encoding: self.encoding.encoding.clone(),
                confidence_percent: self.encoding.confidence_percent,
            },
            line_ending: self.line_ending,
        }
    }
}

/// The state of a document from its first opening on.
#[derive(Clone, Copy, Debug, PartialEq, Eq, Structural)]
pub struct DocumentState {
    pub is_open: bool,
    pub version: i32,
    pub last_modification: u64,
    pub is_dirty: bool,
}

/// One run of a diff: text that was added, text that was removed, or, with both
/// flags down, text that stays.
#[derive(Clone, Debug, PartialEq, Eq)]
pub struct DiffChange {
    pub value: String,
    pub added: bool,
    pub removed: bool,
}

/// Why an operation on a document failed.
#[derive(Clone, Copy, Debug, PartialEq, Eq, Structural)]
pub enum DocumentError {
    /// The document was never opened.
    NotOpen,
    /// The proposed version is not above the current one.
    VersionConflict,
    /// An unchanged run of the diff reaches past the end of the text.
    InvalidChange,
    /// The file is larger than `MAX_FILE_SIZE`.
    FileTooLarge,
    /// The file holds binary data.
    CannotReadBinary,
    /// The path is a symbolic link.
    CannotReadSymlink,
    /// The text of the document is not in the cache.
    NotCached,
    /// The file could not be read.
    NotReadable,
}

impl DocumentError {
    /// The message shown to the client.
    pub fn message(&self) -> (r: String)
        ensures
            r@ == (match *self {
                DocumentError::NotOpen => "Document not found in states"@,
                DocumentError::VersionConflict => "Version conflict: document has been modified"@,
                DocumentError::InvalidChange => "Invalid change: position exceeds content length"@,
                DocumentError::FileTooLarge => "File is too large to load"@,
                DocumentError::CannotReadBinary => "Cannot read binary file as text"@,
                DocumentError::CannotReadSymlink => "Cannot read symlink directly"@,
                DocumentError::NotCached => "Document content not found in cache"@,
                DocumentError::NotReadable => "Failed to read file content"@,
            }),
    {
        match self {
            DocumentError::NotOpen => "Document not found in states".to_owned(),
            DocumentError::VersionConflict => "Version conflict: document has been modified".to_owned(),
            DocumentError::InvalidChange => "Invalid change: position exceeds content length".to_owned(),
            DocumentError::FileTooLarge => "File is too large to load".to_owned(),
            DocumentError::CannotReadBinary => "Cannot read binary file as text".to_owned(),
            DocumentError::CannotReadSymlink => "Cannot read symlink directly".to_owned(),
            DocumentError::NotCached => "Document content not found in cache".to_owned(),
            DocumentError::NotReadable => "Failed to read file content".to_owned(),
        }
    }
}

/// What reading a file gave: its attributes, whether its path is a symbolic
/// link, and its bytes.
#[derive(Clone, Debug, PartialEq, Eq)]
pub struct FileProbe {
    pub metadata: FileMetadata,
    pub is_symlink: bool,
    pub bytes: Vec<u8>,
}

/// Whether a file may be read as a document, and with which type: not where
/// nothing was read, not above `MAX_FILE_SIZE`, not binary data, not a
/// symbolic link.
pub open spec fn admission(file: Option<FileProbe>) -> Result<FileType, DocumentError> {
    match file {
        None => Err(DocumentError::NotReadable),
        Some(f) => if f.metadata.size > MAX_FILE_SIZE || f.bytes@.len() > MAX_FILE_SIZE {
            Err(DocumentError::FileTooLarge)
        } else {
            match file_type_of(f.bytes@, f.is_symlink) {
                FileType::Binary => Err(DocumentError::CannotReadBinary),
                FileType::SymLink => Err(DocumentError::CannotReadSymlink),
                file_type => Ok(file_type),
            }
        },
    }
}

/// The size limit is exact: a file of `MAX_FILE_SIZE` bytes is not too large,
/// a file of one byte more is.
pub proof fn lemma_size_limit_is_exact(file: FileProbe)
    requires
        file.bytes@.len() <= MAX_FILE_SIZE,
    ensures
        file.metadata.size == MAX_FILE_SIZE ==> admission(Some(file)) != Err::<
            FileType,
            DocumentError,
        >(DocumentError::FileTooLarge),
        file.metadata.size == MAX_FILE_SIZE + 1 ==> admission(Some(file)) == Err::<
            FileType,
            DocumentError,
        >(DocumentError::FileTooLarge),
{
}

/// A file of admissible size with a zero byte among its first 512 bytes is
/// refused as binary, however little else it holds.
pub proof fn lemma_zero_byte_is_binary(file: FileProbe, at: int)
    requires
        file.metadata.size <= MAX_FILE_SIZE,
        file.bytes@.len() <= MAX_FILE_SIZE,
        0 <= at < file.bytes@.len(),
        at < 512,
        file.bytes@[at] == 0,
    ensures
        admission(Some(file)) == Err::<FileType, DocumentError>(DocumentError::CannotReadBinary),
{
    let probe = crate::file_system::encoding::probe_of(file.bytes@);
    assert(probe[at] == 0);
    assert(crate::file_system::encoding::has_nul(probe));
}

/// The text of a file: its bytes decoded with the encoding detected for them.
pub open spec fn text_of(bytes: Seq<u8>) -> Seq<char> {
    decoding(encoding_of(bytes).0, bytes).0
}

/// Whether a change or a save that proposes `version` for `uri` passes the
/// version check: the document is open, at a version below the proposed one.
pub open spec fn version_check(
    states: Map<Seq<char>, DocumentState>,
    uri: Seq<char>,
    version: i32,
) -> Result<(), DocumentError> {
    if !states.contains_key(uri) {
        Err(DocumentError::NotOpen)
    } else if states[uri].version >= version {
        Err(DocumentError::VersionConflict)
    } else {
        Ok(())
    }
}

/// The text that a change starts from: the cached text, else what was read
/// from disk.
pub open spec fn current_text(
    entries: Map<Seq<char>, CacheEntry>,
    uri: Seq<char>,
    disk_text: Option<Seq<char>>,
) -> Option<Seq<char>> {
    if entries.contains_key(uri) {
        Some(entries[uri].content@)
    } else {
        disk_text
    }
}

/// What a change comes to: the new text, or the first check that fails.
pub open spec fn change_outcome(
    states: Map<Seq<char>, DocumentState>,
    entries: Map<Seq<char>, CacheEntry>,
    doc: VersionedDocument,
    changes: Seq<DiffChange>,
    disk_text: Option<Seq<char>>,
    stat: Option<FileMetadata>,
) -> Result<Seq<char>, DocumentError> {
    match version_check(states, doc.uri@, doc.version) {
        Err(e) => Err(e),
        Ok(_) => match current_text(entries, doc.uri@, disk_text) {
            None => Err(DocumentError::NotReadable),
            Some(current) => match applied(current, changes) {
                None => Err(DocumentError::InvalidChange),
                Some(text) => if stat is None {
                    Err(DocumentError::NotReadable)
                } else {
                    Ok(text)
                },
            },
        },
    }
}

/// What a save comes to: the text to write, or the first check that fails.
pub open spec fn save_outcome(
    states: Map<Seq<char>, DocumentState>,
    entries: Map<Seq<char>, CacheEntry>,
    doc: VersionedDocument,
) -> Result<Seq<char>, DocumentError> {
    match version_check(states, doc.uri@, doc.version) {
        Err(e) => Err(e),
        Ok(_) => if entries.contains_key(doc.uri@) {
            Ok(entries[doc.uri@].content@)
        } else {
            Err(DocumentError::NotCached)
        },
    }
}

/// Whether every document of `before` is still known in `after`, at a version
/// that is not lower.
pub open spec fn versions_kept(
    before: Map<Seq<char>, DocumentState>,
    after: Map<Seq<char>, DocumentState>,
) -> bool {
    forall|p: Seq<char>| #[trigger]
        before.contains_key(p) ==> after.contains_key(p) && after[p].version >= before[p].version
}

/// Versions are kept from one state to the next, and so along any chain of
/// states.
pub proof fn lemma_versions_kept_chain(
    a: Map<Seq<char>, DocumentState>,
    b: Map<Seq<char>, DocumentState>,
    c: Map<Seq<char>, DocumentState>,
)
    requires
        versions_kept(a, b),
        versions_kept(b, c),
    ensures
        versions_kept(a, c),
{
    assert forall|p: Seq<char>| #[trigger] a.contains_key(p) implies c.contains_key(p) && c[p].version
        >= a[p].version by {
        assert(b.contains_key(p));
    }
}

/// Versions grow strictly from one accepted change to the next: where a change
/// left `uri` at version `first`, and a later change that proposes `second` is
/// accepted in a state that has kept the versions, `second` is above `first`.
pub proof fn lemma_versions_increase(
    after_first: Map<Seq<char>, DocumentState>,
    before_second: Map<Seq<char>, DocumentState>,
    uri: Seq<char>,
    first: i32,
    second: i32,
)
    requires
        after_first.contains_key(uri),
        after_first[uri].version == first,
        versions_kept(after_first, before_second),
        version_check(before_second, uri, second) is Ok,
    ensures
        second > first,
{
}

/// A change that proposes the current version of a document, or a lower one,
/// is turned down as a version conflict.
pub proof fn lemma_stale_version_conflicts(
    states: Map<Seq<char>, DocumentState>,
    entries: Map<Seq<char>, CacheEntry>,
    doc: VersionedDocument,
    changes: Seq<DiffChange>,
    disk_text: Option<Seq<char>>,
    stat: Option<FileMetadata>,
)
    requires
        states.contains_key(doc.uri@),
        doc.version <= states[doc.uri@].version,
    ensures
        change_outcome(states, entries, doc, changes, disk_text, stat) == Err::<
            Seq<char>,
            DocumentError,
        >(DocumentError::VersionConflict),
{
}

/// The identity change: an accepted change that is made of unchanged runs
/// only, whose values have together as many characters as the current text,
/// comes to the current text itself, whatever the values hold and however
/// large the text is.
pub proof fn lemma_identity_change(
    states: Map<Seq<char>, DocumentState>,
    entries: Map<Seq<char>, CacheEntry>,
    doc: VersionedDocument,
    changes: Seq<DiffChange>,
    disk_text: Option<Seq<char>>,
    stat: Option<FileMetadata>,
)
    requires
        version_check(states, doc.uri@, doc.version) is Ok,
        current_text(entries, doc.uri@, disk_text) is Some,
        stat is Some,
        crate::file_system::diff::all_unchanged(changes),
        crate::file_system::diff::total_chars(changes) == current_text(
            entries,
            doc.uri@,
            disk_text,
        )->Some_0.len(),
    ensures
        change_outcome(states, entries, doc, changes, disk_text, stat) == Ok::<
            Seq<char>,
            DocumentError,
        >(current_text(entries, doc.uri@, disk_text)->Some_0),
{
    crate::file_system::diff::lemma_identity_diff(
        current_text(entries, doc.uri@, disk_text)->Some_0,
        changes,
    );
}

/// Saving a document whose text is cached, at the version after its current
/// one, writes exactly the cached text: right after an opening, the text that
/// the opening returned.
pub proof fn lemma_save_writes_cached_text(
    states: Map<Seq<char>, DocumentState>,
    entries: Map<Seq<char>, CacheEntry>,
    doc: VersionedDocument,
)
    requires
        states.contains_key(doc.uri@),
        doc.version == states[doc.uri@].version + 1,
        entries.contains_key(doc.uri@),
    ensures
        save_outcome(states, entries, doc) == Ok::<Seq<char>, DocumentError>(
            entries[doc.uri@].content@,
        ),
{
}

/// The documents of a workspace: their states and the cache of their text.
pub struct DocumentManager {
    workspace_path: String,
    document_states: StringHashMap<DocumentState>,
    cache: ContentCache,
}

impl DocumentManager {
    /// The canonical path of the workspace root.
    pub closed spec fn workspace(&self) -> Seq<char> {
        self.workspace_path@
    }

    /// The state of each document that was opened.
    pub closed spec fn states(&self) -> Map<Seq<char>, DocumentState> {
        self.document_states@
    }

    /// The content cache.
    pub closed spec fn cache(&self) -> ContentCache {
        self.cache
    }

    /// The manager's invariant: that of its cache, whose budget is
    /// `CACHE_SIZE_LIMIT`.
    pub open spec fn wf(&self) -> bool {
        &&& self.cache().wf()
        &&& self.cache().budget() == CACHE_SIZE_LIMIT
    }

    /// A manager without documents for the workspace at `workspace_path`, which
    /// the caller has made canonical.
    pub fn new(workspace_path: String) -> (r: Self)
        ensures
            r.wf(),
            r.workspace() == workspace_path@,
            r.states() == Map::<Seq<char>, DocumentState>::empty(),
            r.cache().entries() == Map::<Seq<char>, CacheEntry>::empty(),
            r.cache().order() == Seq::<Seq<char>>::empty(),
            r.cache().used() == 0,
    {
        DocumentManager {
            workspace_path,
            document_states: StringHashMap::new(),
            cache: ContentCache::new(CACHE_SIZE_LIMIT),
        }
    }

    /// Marks the document at `path` as closed. Its text stays in the cache.
    pub fn close_file(&mut self, path: &str)
        ensures
            versions_kept(old(self).states(), final(self).states()),
            final(self).cache() == old(self).cache(),
            final(self).workspace() == old(self).workspace(),
            final(self).states() == if old(self).states().contains_key(path@) {
                old(self).states().insert(
                    path@,
                    DocumentState { is_open: false, ..old(self).states()[path@] },
                )
            } else {
                old(self).states()
            },
    {
        let found = match self.document_states.get(path) {
            Some(state) => Some(*state),
            None => None,
        };
        match found {
            Some(state) => {
                self.document_states.insert(
                    path.to_owned(),
                    DocumentState { is_open: false, ..state },
                );
            },
            None => {},
        }
    }

    /// The state of the document at `path`.
    pub fn get_document_state(&self, path: &str) -> (r: Result<DocumentState, DocumentError>)
        ensures
            r == if self.states().contains_key(path@) {
                Ok::<DocumentState, DocumentError>(self.states()[path@])
            } else {
                Err::<DocumentState, DocumentError>(DocumentError::NotOpen)
            },
    {
        match self.document_states.get(path) {
            Some(state) => Ok(*state),
            None => Err(DocumentError::NotOpen),
        }
    }

    /// The cached text of `path`. `None` means that an operation that needs the
    /// text has to be given the file.
    pub fn cached_content(&self, path: &str) -> (r: Option<String>)
        ensures
            match r {
                Some(text) => self.cache().entries().contains_key(path@) && text
                    == self.cache().entries()[path@].content,
                None => !self.cache().entries().contains_key(path@),
            },
    {
        match self.cache.get(path) {
            Some(entry) => Some(entry.content.clone()),
            None => None,
        }
    }

    /// The cached paths, oldest first.
    pub fn cached_paths(&self) -> (r: Vec<String>)
        ensures
            r.deep_view() == self.cache().order(),
    {
        self.cache.paths()
    }

    /// The bytes that the cache accounts for.
    pub fn current_cache_size(&self) -> (r: u64)
        ensures
            r == self.cache().used(),
    {
        self.cache.current_size()
    }

    /// The metadata cached with the text of `path`.
    pub fn cached_metadata(&self, path: &str) -> (r: Option<DocumentMetadata>)
        ensures
            match r {
                Some(metadata) => self.cache().entries().contains_key(path@) && metadata
                    == self.cache().entries()[path@].metadata,
                None => !self.cache().entries().contains_key(path@),
            },
    {
        match self.cache.get(path) {
            Some(entry) => Some(entry.metadata.duplicate()),
            None => None,
        }
    }

    /// Caches `content` for `path`, making room at the head of the queue. A text
    /// that alone is larger than the budget ends up as the only entry.
    pub fn cache_content(&mut self, path: String, content: String, metadata: DocumentMetadata)
        requires
            old(self).wf(),
        ensures
            final(self).wf(),
            final(self).states() == old(self).states(),
            final(self).workspace() == old(self).workspace(),
            final(self).cache().order() == order_after_insert(
                old(self).cache().order(),
                old(self).cache().entries(),
                path@,
                utf8_len(content@),
                CACHE_SIZE_LIMIT as nat,
            ),
            final(self).cache().entries() == entries_after_insert(
                old(self).cache().order(),
                old(self).cache().entries(),
                path@,
                CacheEntry { content, metadata },
                CACHE_SIZE_LIMIT as nat,
            ),
            final(self).cache().entries().contains_key(path@),
            final(self).cache().entries()[path@] == (CacheEntry { content, metadata }),
            utf8_len(content@) <= CACHE_SIZE_LIMIT ==> final(self).cache().used()
                <= CACHE_SIZE_LIMIT,
    {
        self.cache.cache_content(path, content, metadata);
    }

    /// Drops the cached text of `path`, as after a change on disk.
    pub fn invalidate_cache_for_file(&mut self, path: &str)
        requires
            old(self).wf(),
        ensures
            final(self).wf(),
            final(self).states() == old(self).states(),
            final(self).workspace() == old(self).workspace(),
            final(self).cache().entries() == old(self).cache().entries().remove(path@),
            final(self).cache().order() == crate::file_system::content_cache::without(
                old(self).cache().order(),
                path@,
            ),
            final(self).cache().used() <= old(self).cache().used(),
    {
        self.cache.invalidate(path);
    }

    /// Takes in a file that was read and decoded: builds its metadata and
    /// caches the text where it is no larger than the cache's budget.
    /// Returns the text and the metadata.
    pub fn load_document(
        &mut self,
        path: &str,
        stat: &FileMetadata,
        file_type: FileType,
        encoding: FileEncoding,
        content: String,
    ) -> (r: (String, DocumentMetadata))
        requires
            old(self).wf(),
        ensures
            final(self).wf(),
            final(self).states() == old(self).states(),
            final(self).workspace() == old(self).workspace(),
            r.0 == content,
            r.1.describes(
                *stat,
                file_type,
                (encoding.encoding@, encoding.confidence_percent),
                line_ending_of(content@),
            ),
            old(self).cache().used() <= CACHE_SIZE_LIMIT ==> final(self).cache().used()
                <= CACHE_SIZE_LIMIT,
            utf8_len(content@) > CACHE_SIZE_LIMIT ==> final(self).cache() == old(self).cache(),
            utf8_len(content@) <= CACHE_SIZE_LIMIT ==> {
                &&& final(self).cache().order() == order_after_insert(
                    old(self).cache().order(),
                    old(self).cache().entries(),
                    path@,
                    utf8_len(content@),
                    CACHE_SIZE_LIMIT as nat,
                )
                &&& final(self).cache().entries() == entries_after_insert(
                    old(self).cache().order(),
                    old(self).cache().entries(),
                    path@,
                    CacheEntry { content: r.0, metadata: r.1 },
                    CACHE_SIZE_LIMIT as nat,
                )
                &&& final(self).cache().entries().contains_key(path@)
                &&& final(self).cache().entries()[path@] == (CacheEntry {
                    content: r.0,
                    metadata: r.1,
                })
            },
    {
        let line_ending = detect_line_ending(content.as_str());
        let metadata = DocumentMetadata::from_stat(stat, file_type, encoding, line_ending);
        if byte_len(content.as_str()) as u64 <= CACHE_SIZE_LIMIT {
            self.cache.cache_content(path.to_owned(), content.clone(), metadata.duplicate());
        }
        (content, metadata)
    }

    /// The text and the metadata of `path`: from the cache where it is cached,
    /// else from `file`.
    fn fetch(&mut self, path: &str, file: Option<&FileProbe>) -> (r: Result<
        (String, DocumentMetadata),
        DocumentError,
    >)
        requires
            old(self).wf(),
        ensures
            final(self).wf(),
            final(self).states() == old(self).states(),
            final(self).workspace() == old(self).workspace(),
            old(self).cache().entries().contains_key(path@) ==> {
                &&& final(self).cache() == old(self).cache()
                &&& r is Ok
                &&& r->Ok_0.0 == old(self).cache().entries()[path@].content
                &&& r->Ok_0.1 == old(self).cache().entries()[path@].metadata
            },
            !old(self).cache().entries().contains_key(path@) ==> match admission(
                match file {
                    Some(f) => Some(*f),
                    None => None,
                },
            ) {
                Err(e) => r == Err::<(String, DocumentMetadata), DocumentError>(e) && final(self).cache() == old(self).cache(),
                Ok(file_type) => {
                    let f = file->Some_0;
                    &&& r is Ok
                    &&& r->Ok_0.0@ == text_of(f.bytes@)
                    &&& r->Ok_0.1.describes(
                        f.metadata,
                        file_type,
                        encoding_of(f.bytes@),
                        line_ending_of(text_of(f.bytes@)),
                    )
                    &&& utf8_len(text_of(f.bytes@)) > CACHE_SIZE_LIMIT ==> final(self).cache()
                        == old(self).cache()
                    &&& utf8_len(text_of(f.bytes@)) <= CACHE_SIZE_LIMIT ==> {
                        &&& final(self).cache().order() == order_after_insert(
                            old(self).cache().order(),
                            old(self).cache().entries(),
                            path@,
                            utf8_len(text_of(f.bytes@)),
                            CACHE_SIZE_LIMIT as nat,
                        )
                        &&& final(self).cache().entries() == entries_after_insert(
                            old(self).cache().order(),
                            old(self).cache().entries(),
                            path@,
                            CacheEntry { content: r->Ok_0.0, metadata: r->Ok_0.1 },
                            CACHE_SIZE_LIMIT as nat,
                        )
                        &&& final(self).cache().entries().contains_key(path@)
                        &&& final(self).cache().entries()[path@] == (CacheEntry {
                            content: r->Ok_0.0,
                            metadata: r->Ok_0.1,
                        })
                    }
                },
            },
    {
        match self.cache.get(path) {
            Some(entry) => {
                return Ok((entry.content.clone(), entry.metadata.duplicate()));
            },
            None => {},
        }
        let f = match file {
            Some(f) => f,
            None => {
                return Err(DocumentError::NotReadable);
            },
        };
        if f.metadata.size > MAX_FILE_SIZE || f.bytes.len() as u64 > MAX_FILE_SIZE {
            return Err(DocumentError::FileTooLarge);
        }
        let file_type = detect_file_type(f.bytes.as_slice(), f.is_symlink);
        match file_type {
            FileType::Binary => {
                return Err(DocumentError::CannotReadBinary);
            },
            FileType::SymLink => {
                return Err(DocumentError::CannotReadSymlink);
            },
            _ => {},
        }
        let encoding = detect_encoding(f.bytes.as_slice());
        let (content, _had_errors) = decode_content(encoding.encoding.as_str(), f.bytes.as_slice());
        Ok(self.load_document(path, &f.metadata, file_type, encoding, content))
    }

    /// The text of the document at `path`: the cached text, else the text of
    /// `file`, which is then cached where it is no larger than the cache's
    /// budget. Sequences that the decoder had to replace are no error.
    pub fn get_document_content(&mut self, path: &str, file: Option<&FileProbe>) -> (r: Result<
        String,
        DocumentError,
    >)
        requires
            old(self).wf(),
        ensures
            final(self).wf(),
            final(self).states() == old(self).states(),
            final(self).workspace() == old(self).workspace(),
            old(self).cache().entries().contains_key(path@) ==> {
                &&& final(self).cache() == old(self).cache()
                &&& r is Ok
                &&& r->Ok_0 == old(self).cache().entries()[path@].content
            },
            !old(self).cache().entries().contains_key(path@) ==> match admission(
                match file {
                    Some(f) => Some(*f),
                    None => None,
                },
            ) {
                Err(e) => r == Err::<String, DocumentError>(e) && final(self).cache() == old(self).cache(),
                Ok(file_type) => {
                    let f = file->Some_0;
                    &&& r is Ok
                    &&& r->Ok_0@ == text_of(f.bytes@)
                    &&& utf8_len(text_of(f.bytes@)) > CACHE_SIZE_LIMIT ==> final(self).cache()
                        == old(self).cache()
                    &&& utf8_len(text_of(f.bytes@)) <= CACHE_SIZE_LIMIT ==> {
                        &&& final(self).cache().order() == order_after_insert(
                            old(self).cache().order(),
                            old(self).cache().entries(),
                            path@,
                            utf8_len(text_of(f.bytes@)),
                            CACHE_SIZE_LIMIT as nat,
                        )
                        &&& final(self).cache().entries().contains_key(path@)
                        &&& final(self).cache().entries()[path@].content == r->Ok_0
                        &&& final(self).cache().entries()[path@].metadata.describes(
                            f.metadata,
                            file_type,
                            encoding_of(f.bytes@),
                            line_ending_of(text_of(f.bytes@)),
                        )
                    }
                },
            },
    {
        match self.fetch(path, file) {
            Ok((content, _)) => Ok(content),
            Err(e) => Err(e),
        }
    }

    /// Opens the document at `path` and returns its text, its metadata and its
    /// version.
    ///
    /// The text comes from the cache, else from `file`. A first opening starts
    /// the document at version 0; a later one keeps its version. Where the text
    /// cannot be had, nothing is recorded: no state, no cache entry.
    pub fn open_file(&mut self, path: &str, file: Option<&FileProbe>) -> (r: Result<
        (String, DocumentMetadata, i32),
        DocumentError,
    >)
        requires
            old(self).wf(),
        ensures
            final(self).wf(),
            final(self).workspace() == old(self).workspace(),
            versions_kept(old(self).states(), final(self).states()),
            r is Err ==> final(self).states() == old(self).states() && final(self).cache() == old(self).cache(),
            r is Ok ==> {
                let opened = r->Ok_0;
                &&& opened.2 == if old(self).states().contains_key(path@) {
                    old(self).states()[path@].version
                } else {
                    0
                }
                &&& final(self).states() == old(self).states().insert(
                    path@,
                    if old(self).states().contains_key(path@) {
                        DocumentState { is_open: true, ..old(self).states()[path@] }
                    } else {
                        DocumentState {
                            is_open: true,
                            version: 0,
                            last_modification: match opened.1.modified_at {
                                Some(t) => t,
                                None => 0,
                            },
                            is_dirty: false,
                        }
                    },
                )
            },
            old(self).cache().entries().contains_key(path@) ==> {
                &&& final(self).cache() == old(self).cache()
                &&& r is Ok
                &&& r->Ok_0.0 == old(self).cache().entries()[path@].content
                &&& r->Ok_0.1 == old(self).cache().entries()[path@].metadata
            },
            !old(self).cache().entries().contains_key(path@) ==> match admission(
                match file {
                    Some(f) => Some(*f),
                    None => None,
                },
            ) {
                Err(e) => r == Err::<(String, DocumentMetadata, i32), DocumentError>(e),
                Ok(file_type) => {
                    let f = file->Some_0;
                    &&& r is Ok
                    &&& r->Ok_0.0@ == text_of(f.bytes@)
                    &&& r->Ok_0.1.describes(
                        f.metadata,
                        file_type,
                        encoding_of(f.bytes@),
                        line_ending_of(text_of(f.bytes@)),
                    )
                    &&& utf8_len(text_of(f.bytes@)) > CACHE_SIZE_LIMIT ==> final(self).cache()
                        == old(self).cache()
                    &&& utf8_len(text_of(f.bytes@)) <= CACHE_SIZE_LIMIT ==> {
                        &&& final(self).cache().order() == order_after_insert(
                            old(self).cache().order(),
                            old(self).cache().entries(),
                            path@,
                            utf8_len(text_of(f.bytes@)),
                            CACHE_SIZE_LIMIT as nat,
                        )
                        &&& final(self).cache().entries().contains_key(path@)
                        &&& final(self).cache().entries()[path@] == (CacheEntry {
                            content: r->Ok_0.0,
                            metadata: r->Ok_0.1,
                        })
                    }
                },
            },
    {
        let (content, metadata) = match self.fetch(path, file) {
            Ok(fetched) => fetched,
            Err(e) => {
                return Err(e);
            },
        };
        let known = match self.document_states.get(path) {
            Some(state) => Some(*state),
            None => None,
        };
        let state = match known {
            Some(state) => DocumentState { is_open: true, ..state },
            None => DocumentState {
                is_open: true,
                version: 0,
                last_modification: match metadata.modified_at {
                    Some(t) => t,
                    None => 0,
                },
                is_dirty: false,
            },
        };
        self.document_states.insert(path.to_owned(), state);
        Ok((content, metadata, state.version))
    }

    /// Applies `changes` to the document `doc.uri` and adopts the version that
    /// `doc` proposes.
    ///
    /// The change starts from the cached text, else from `disk_text`, the text
    /// read from disk. `stat` is what a `stat` of the file gave, `now` the
    /// time in seconds since the epoch. The new text replaces the cache entry
    /// of the document, which is from then on dirty. The cache keeps the new
    /// text whatever its size: for a text that alone is larger than the
    /// budget every other entry leaves.
    pub fn change_document(
        &mut self,
        doc: &VersionedDocument,
        changes: Vec<DiffChange>,
        disk_text: Option<String>,
        stat: Option<FileMetadata>,
        now: u64,
    ) -> (r: Result<VersionedDocument, DocumentError>)
        requires
            old(self).wf(),
        ensures
            final(self).wf(),
            final(self).workspace() == old(self).workspace(),
            versions_kept(old(self).states(), final(self).states()),
            match change_outcome(
                old(self).states(),
                old(self).cache().entries(),
                *doc,
                changes@,
                match disk_text {
                    Some(t) => Some(t@),
                    None => None,
                },
                stat,
            ) {
                Err(e) => {
                    &&& r == Err::<VersionedDocument, DocumentError>(e)
                    &&& final(self).states() == old(self).states()
                    &&& final(self).cache() == old(self).cache()
                },
                Ok(text) => {
                    &&& r is Ok
                    &&& r->Ok_0.uri@ == doc.uri@
                    &&& r->Ok_0.version == doc.version
                    &&& final(self).states() == old(self).states().insert(
                        doc.uri@,
                        DocumentState {
                            version: doc.version,
                            is_dirty: true,
                            last_modification: now,
                            ..old(self).states()[doc.uri@]
                        },
                    )
                    &&& final(self).cache().order() == order_after_insert(
                        old(self).cache().order(),
                        old(self).cache().entries(),
                        doc.uri@,
                        utf8_len(text),
                        CACHE_SIZE_LIMIT as nat,
                    )
                    &&& final(self).cache().entries().contains_key(doc.uri@)
                    &&& final(self).cache().entries()[doc.uri@].content@ == text
                    &&& final(self).cache().entries()[doc.uri@].metadata.describes(
                        stat->Some_0,
                        FileType::Text,
                        ("UTF-8"@, 100),
                        line_ending_of(text),
                    )
                    &&& forall|p: Seq<char>|
                        p != doc.uri@ && #[trigger] final(self).cache().entries().contains_key(p)
                            ==> old(self).cache().entries().contains_key(p) && final(self).cache().entries()[p] == old(self).cache().entries()[p]
                    &&& utf8_len(text) <= CACHE_SIZE_LIMIT ==> final(self).cache().used()
                        <= CACHE_SIZE_LIMIT
                },
            },
    {
        let path = doc.uri.as_str();
        let state = match self.document_states.get(path) {
            Some(state) => *state,
            None => {
                return Err(DocumentError::NotOpen);
            },
        };
        if state.version >= doc.version {
            return Err(DocumentError::VersionConflict);
        }
        let current = match self.cache.get(path) {
            Some(entry) => entry.content.clone(),
            None => match disk_text {
                Some(text) => text,
                None => {
                    return Err(DocumentError::NotReadable);
                },
            },
        };
        let text = match apply_changes(current.as_str(), &changes) {
            Ok(text) => text,
            Err(e) => {
                return Err(e);
            },
        };
        let stat = match stat {
            Some(stat) => stat,
            None => {
                return Err(DocumentError::NotReadable);
            },
        };
        let metadata = DocumentMetadata::from_stat(
            &stat,
            FileType::Text,
            FileEncoding { encoding: "UTF-8".to_owned(), confidence_percent: 100 },
            detect_line_ending(text.as_str()),
        );
        proof {
            crate::file_system::content_cache::lemma_others_survive_or_leave(
                self.cache.order(),
                self.cache.entries(),
                doc.uri@,
                CacheEntry { content: text, metadata },
                CACHE_SIZE_LIMIT as nat,
            );
        }
        self.cache.cache_content(doc.uri.clone(), text, metadata);
        self.document_states.insert(
            doc.uri.clone(),
            DocumentState { version: doc.version, is_dirty: true, last_modification: now, ..state },
        );
        Ok(VersionedDocument { uri: doc.uri.clone(), version: doc.version })
    }

    /// The text to write for a save of `doc`, after the version check.
    pub fn content_to_save(&self, doc: &VersionedDocument) -> (r: Result<String, DocumentError>)
        ensures
            match save_outcome(self.states(), self.cache().entries(), *doc) {
                Err(e) => r == Err::<String, DocumentError>(e),
                Ok(text) => r is Ok && r->Ok_0 == self.cache().entries()[doc.uri@].content,
            },
    {
        let path = doc.uri.as_str();
        let state = match self.document_states.get(path) {
            Some(state) => *state,
            None => {
                return Err(DocumentError::NotOpen);
            },
        };
        if state.version >= doc.version {
            return Err(DocumentError::VersionConflict);
        }
        match self.cache.get(path) {
            Some(entry) => Ok(entry.content.clone()),
            None => Err(DocumentError::NotCached),
        }
    }

    /// Records that the text of `doc` was written to disk at `now`: the
    /// document is clean again. Its version stays as it is.
    ///
    /// The caller writes `content_to_save(doc)` first and calls this once the
    /// write has succeeded.
    pub fn save_document(&mut self, doc: &VersionedDocument, now: u64) -> (r: Result<
        VersionedDocument,
        DocumentError,
    >)
        ensures
            final(self).workspace() == old(self).workspace(),
            final(self).cache() == old(self).cache(),
            versions_kept(old(self).states(), final(self).states()),
            match save_outcome(old(self).states(), old(self).cache().entries(), *doc) {
                Err(e) => {
                    &&& r == Err::<VersionedDocument, DocumentError>(e)
                    &&& final(self).states() == old(self).states()
                },
                Ok(_) => {
                    &&& r is Ok
                    &&& r->Ok_0.uri@ == doc.uri@
                    &&& r->Ok_0.version == old(self).states()[doc.uri@].version
                    &&& final(self).states() == old(self).states().insert(
                        doc.uri@,
                        DocumentState {
                            is_dirty: false,
                            last_modification: now,
                            ..old(self).states()[doc.uri@]
                        },
                    )
                },
            },
    {
        let path = doc.uri.as_str();
        let state = match self.document_states.get(path) {
            Some(state) => *state,
            None => {
                return Err(DocumentError::NotOpen);
            },
        };
        if state.version >= doc.version {
            return Err(DocumentError::VersionConflict);
        }
        if self.cache.get(path).is_none() {
            return Err(DocumentError::NotCached);
        }
        self.document_states.insert(
            doc.uri.clone(),
            DocumentState { is_dirty: false, last_modification: now, ..state },
        );
        Ok(VersionedDocument { uri: doc.uri.clone(), version: state.version })
    }
}

} // verus!

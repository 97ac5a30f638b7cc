use editor_core::file_system::diff::apply_changes;
use editor_core::file_system::document_manager::DiffChange;
use editor_core::file_system::document_manager::DocumentError;
use editor_core::file_system::document_manager::DocumentManager;
use editor_core::file_system::document_manager::DocumentMetadata;
use editor_core::file_system::document_manager::FileEncoding;
use editor_core::file_system::document_manager::FileProbe;
use editor_core::file_system::document_manager::FileType;
use editor_core::file_system::document_manager::LineEnding;
use editor_core::file_system::document_manager::VersionedDocument;
use editor_core::file_system::document_manager::CACHE_SIZE_LIMIT;
use editor_core::file_system::document_manager::MAX_FILE_SIZE;
use editor_core::file_system::encoding::decode_content;
use editor_core::file_system::encoding::detect_encoding;
use editor_core::file_system::encoding::detect_file_type;
use editor_core::file_system::file_event::FileMetadata;
use editor_core::file_system::line_ending::detect_line_ending;

fn stat(size: u64) -> FileMetadata {
    FileMetadata {
        size,
        is_directory: false,
        is_symlink: false,
        created_at: Some(100),
        modified_at: Some(200),
        readonly: false,
    }
}

fn probe(bytes: &[u8]) -> FileProbe {
    FileProbe { metadata: stat(bytes.len() as u64), is_symlink: false, bytes: bytes.to_vec() }
}

fn unchanged(value: &str) -> DiffChange {
    DiffChange { value: value.to_string(), added: false, removed: false }
}

fn added(value: &str) -> DiffChange {
    DiffChange { value: value.to_string(), added: true, removed: false }
}

fn removed(value: &str) -> DiffChange {
    DiffChange { value: value.to_string(), added: false, removed: true }
}

fn doc(uri: &str, version: i32) -> VersionedDocument {
    VersionedDocument { uri: uri.to_string(), version }
}

fn plain_metadata(size: u64) -> DocumentMetadata {
    DocumentMetadata::from_stat(
        &stat(size),
        FileType::Text,
        FileEncoding { encoding: "UTF-8".to_string(), confidence_percent: 100 },
        LineEnding::LF,
    )
}

#[test]
fn open_edit_save() {
    let mut docs = DocumentManager::new("/ws".to_string());
    let path = "/ws/a.txt";

    let (content, metadata, version) = docs.open_file(path, Some(&probe(b"hello\n"))).unwrap();
    assert_eq!(content, "hello\n");
    assert_eq!(version, 0);
    assert_eq!(metadata.size, 6);
    assert_eq!(metadata.file_type, FileType::Text);
    assert_eq!(metadata.line_ending, LineEnding::LF);
    assert_eq!(metadata.encoding.encoding, "UTF-8");
    assert_eq!(metadata.encoding.confidence_percent, 90);
    let state = docs.get_document_state(path).unwrap();
    assert!(state.is_open);
    assert!(!state.is_dirty);
    assert_eq!(state.version, 0);
    assert_eq!(state.last_modification, 200);

    let changes = vec![unchanged("hello"), added("!"), removed("\n"), added("\n")];
    let changed = docs.change_document(&doc(path, 1), changes, None, Some(stat(6)), 1234).unwrap();
    assert_eq!(changed, doc(path, 1));
    assert_eq!(docs.cached_content(path), Some("hello!\n".to_string()));
    let state = docs.get_document_state(path).unwrap();
    assert_eq!(state.version, 1);
    assert!(state.is_dirty);
    assert_eq!(state.last_modification, 1234);

    let to_write = docs.content_to_save(&doc(path, 2)).unwrap();
    assert_eq!(to_write, "hello!\n");
    let saved = docs.save_document(&doc(path, 2), 1300).unwrap();
    assert_eq!(saved, doc(path, 1));
    let state = docs.get_document_state(path).unwrap();
    assert!(!state.is_dirty);
    assert_eq!(state.version, 1);
    assert_eq!(state.last_modification, 1300);
}

#[test]
fn file_of_exactly_max_size_opens() {
    let mut docs = DocumentManager::new("/ws".to_string());
    let mut file = probe(b"data\n");
    file.metadata.size = MAX_FILE_SIZE;
    let opened = docs.open_file("/ws/big.txt", Some(&file));
    assert!(opened.is_ok());
    assert_eq!(docs.get_document_state("/ws/big.txt").unwrap().version, 0);
}

#[test]
fn file_one_byte_over_max_size_is_too_large() {
    let mut docs = DocumentManager::new("/ws".to_string());
    let mut file = probe(b"data\n");
    file.metadata.size = MAX_FILE_SIZE + 1;
    assert_eq!(docs.open_file("/ws/big.txt", Some(&file)), Err(DocumentError::FileTooLarge));
    assert_eq!(docs.get_document_state("/ws/big.txt"), Err(DocumentError::NotOpen));
    assert_eq!(
        docs.get_document_content("/ws/big.txt", Some(&file)),
        Err(DocumentError::FileTooLarge)
    );
}

#[test]
fn bytes_over_max_size_are_too_large() {
    let mut docs = DocumentManager::new("/ws".to_string());
    let bytes = vec![b'a'; MAX_FILE_SIZE as usize + 1];
    let mut file = probe(&bytes);
    file.metadata.size = 10;
    assert_eq!(docs.open_file("/ws/grown.txt", Some(&file)), Err(DocumentError::FileTooLarge));
    let exact = vec![b'a'; MAX_FILE_SIZE as usize];
    assert!(docs.open_file("/ws/exact.txt", Some(&probe(&exact))).is_ok());
}

#[test]
fn binary_refusal() {
    let mut docs = DocumentManager::new("/ws".to_string());
    let mut bytes = vec![b'x'; 600];
    bytes[511] = 0;
    assert_eq!(detect_file_type(&bytes, false), FileType::Binary);
    let opened = docs.open_file("/ws/blob.bin", Some(&probe(&bytes)));
    assert_eq!(opened, Err(DocumentError::CannotReadBinary));
    assert_eq!(docs.get_document_state("/ws/blob.bin"), Err(DocumentError::NotOpen));
    assert_eq!(docs.cached_content("/ws/blob.bin"), None);
    assert!(docs.cached_paths().is_empty());
    assert_eq!(docs.current_cache_size(), 0);
}

#[test]
fn nul_after_the_probe_is_text() {
    let mut bytes = vec![b'x'; 600];
    bytes[512] = 0;
    assert_eq!(detect_file_type(&bytes, false), FileType::Text);
    assert_eq!(detect_file_type(&[0u8], false), FileType::Binary);
    assert_eq!(detect_file_type(&[], false), FileType::Text);
    assert_eq!(detect_file_type(b"abc", true), FileType::SymLink);
    assert_eq!(detect_file_type(&[0u8], true), FileType::Binary);
}

#[test]
fn symlink_refusal() {
    let mut docs = DocumentManager::new("/ws".to_string());
    let mut file = probe(b"text");
    file.is_symlink = true;
    assert_eq!(docs.open_file("/ws/link", Some(&file)), Err(DocumentError::CannotReadSymlink));
    assert_eq!(docs.get_document_state("/ws/link"), Err(DocumentError::NotOpen));
}

#[test]
fn open_without_file_or_cache_is_not_readable() {
    let mut docs = DocumentManager::new("/ws".to_string());
    assert_eq!(docs.open_file("/ws/a", None), Err(DocumentError::NotReadable));
    assert_eq!(docs.get_document_content("/ws/a", None), Err(DocumentError::NotReadable));
}

#[test]
fn reopening_keeps_the_version_and_reads_the_cache() {
    let mut docs = DocumentManager::new("/ws".to_string());
    let path = "/ws/a.txt";
    docs.open_file(path, Some(&probe(b"one"))).unwrap();
    docs.change_document(&doc(path, 5), vec![added("two")], None, Some(stat(3)), 1).unwrap();
    docs.close_file(path);
    assert!(!docs.get_document_state(path).unwrap().is_open);
    // The cache answers: no file is needed, and what is handed in is not read.
    let (content, _, version) = docs.open_file(path, Some(&probe(b"other"))).unwrap();
    assert_eq!(content, "two");
    assert_eq!(version, 5);
    assert!(docs.get_document_state(path).unwrap().is_open);
    let (again, _, _) = docs.open_file(path, None).unwrap();
    assert_eq!(again, "two");
}

#[test]
fn close_of_an_unknown_file_changes_nothing() {
    let mut docs = DocumentManager::new("/ws".to_string());
    docs.close_file("/ws/never");
    assert_eq!(docs.get_document_state("/ws/never"), Err(DocumentError::NotOpen));
}

#[test]
fn change_requires_an_open_document() {
    let mut docs = DocumentManager::new("/ws".to_string());
    let r = docs.change_document(&doc("/ws/a", 1), vec![], Some(String::new()), Some(stat(0)), 0);
    assert_eq!(r, Err(DocumentError::NotOpen));
    assert_eq!(docs.content_to_save(&doc("/ws/a", 1)), Err(DocumentError::NotOpen));
    assert_eq!(docs.save_document(&doc("/ws/a", 1), 0), Err(DocumentError::NotOpen));
}

#[test]
fn change_with_the_current_version_conflicts() {
    let mut docs = DocumentManager::new("/ws".to_string());
    let path = "/ws/a.txt";
    docs.open_file(path, Some(&probe(b"abc"))).unwrap();
    let same = docs.change_document(&doc(path, 0), vec![unchanged("abc")], None, Some(stat(3)), 1);
    assert_eq!(same, Err(DocumentError::VersionConflict));
    let lower = docs.change_document(&doc(path, -1), vec![unchanged("abc")], None, Some(stat(3)), 1);
    assert_eq!(lower, Err(DocumentError::VersionConflict));
    assert_eq!(docs.get_document_state(path).unwrap().version, 0);
    assert!(!docs.get_document_state(path).unwrap().is_dirty);
    assert_eq!(docs.save_document(&doc(path, 0), 1), Err(DocumentError::VersionConflict));
}

#[test]
fn versions_grow_with_each_change() {
    let mut docs = DocumentManager::new("/ws".to_string());
    let path = "/ws/a.txt";
    docs.open_file(path, Some(&probe(b""))).unwrap();
    let v1 = docs.change_document(&doc(path, 3), vec![added("a")], None, Some(stat(0)), 1).unwrap();
    docs.save_document(&doc(path, 4), 2).unwrap();
    docs.close_file(path);
    docs.open_file(path, None).unwrap();
    let stale = docs.change_document(&doc(path, 3), vec![added("b")], None, Some(stat(0)), 3);
    assert_eq!(stale, Err(DocumentError::VersionConflict));
    let v2 = docs.change_document(&doc(path, 9), vec![unchanged("a"), added("b")], None, Some(stat(0)), 3)
        .unwrap();
    assert!(v2.version > v1.version);
    assert_eq!(v1.version, 3);
    assert_eq!(v2.version, 9);
    assert_eq!(docs.cached_content(path), Some("ab".to_string()));
}

#[test]
fn invalid_change_leaves_everything_as_it_was() {
    let mut docs = DocumentManager::new("/ws".to_string());
    let path = "/ws/a.txt";
    docs.open_file(path, Some(&probe(b"abc"))).unwrap();
    let r = docs.change_document(&doc(path, 1), vec![unchanged("abcd")], None, Some(stat(3)), 1);
    assert_eq!(r, Err(DocumentError::InvalidChange));
    assert_eq!(docs.cached_content(path), Some("abc".to_string()));
    assert_eq!(docs.get_document_state(path).unwrap().version, 0);
}

#[test]
fn change_reads_disk_text_when_not_cached() {
    let mut docs = DocumentManager::new("/ws".to_string());
    let path = "/ws/a.txt";
    docs.open_file(path, Some(&probe(b"abc"))).unwrap();
    docs.invalidate_cache_for_file(path);
    assert_eq!(docs.cached_content(path), None);
    let none = docs.change_document(&doc(path, 1), vec![added("x")], None, Some(stat(3)), 1);
    assert_eq!(none, Err(DocumentError::NotReadable));
    let no_stat =
        docs.change_document(&doc(path, 1), vec![added("x")], Some("disk".to_string()), None, 1);
    assert_eq!(no_stat, Err(DocumentError::NotReadable));
    let ok = docs.change_document(
        &doc(path, 1),
        vec![unchanged("di"), removed("sk"), added("g")],
        Some("disk".to_string()),
        Some(stat(4)),
        1,
    );
    assert_eq!(ok, Ok(doc(path, 1)));
    assert_eq!(docs.cached_content(path), Some("dig".to_string()));
    let metadata = docs.cached_metadata(path).unwrap();
    assert_eq!(metadata.encoding.encoding, "UTF-8");
    assert_eq!(metadata.encoding.confidence_percent, 100);
    assert_eq!(metadata.size, 4);
}

#[test]
fn save_needs_cached_text() {
    let mut docs = DocumentManager::new("/ws".to_string());
    let path = "/ws/a.txt";
    docs.open_file(path, Some(&probe(b"abc"))).unwrap();
    docs.invalidate_cache_for_file(path);
    assert_eq!(docs.content_to_save(&doc(path, 1)), Err(DocumentError::NotCached));
    assert_eq!(docs.save_document(&doc(path, 1), 5), Err(DocumentError::NotCached));
}

#[test]
fn save_right_after_open_writes_what_open_returned() {
    let mut docs = DocumentManager::new("/ws".to_string());
    let path = "/ws/a.txt";
    let (content, _, version) = docs.open_file(path, Some(&probe("gr\u{fc}n\r\n".as_bytes()))).unwrap();
    let to_write = docs.content_to_save(&doc(path, version + 1)).unwrap();
    assert_eq!(to_write, content);
    assert_eq!(to_write.as_bytes(), "gr\u{fc}n\r\n".as_bytes());
    let saved = docs.save_document(&doc(path, version + 1), 9).unwrap();
    assert_eq!(saved.version, version);
    assert_eq!(docs.cached_content(path), Some(content));
}

#[test]
fn identity_diff_yields_the_same_text() {
    let text = "fn main() {\n    println!(\"h\u{e9}llo \u{1f600}\");\n}\n";
    let whole = vec![unchanged(text)];
    assert_eq!(apply_changes(text, &whole), Ok(text.to_string()));
    let pieces = vec![unchanged("fn main() {\n"), unchanged(""), unchanged(&text[12..])];
    assert_eq!(apply_changes(text, &pieces), Ok(text.to_string()));
    // The value of an unchanged run is only counted, never compared.
    let count = text.chars().count();
    let blanks: String = std::iter::repeat('x').take(count).collect();
    assert_eq!(apply_changes(text, &vec![unchanged(&blanks)]), Ok(text.to_string()));
    assert_eq!(apply_changes("", &vec![]), Ok(String::new()));
}

#[test]
fn diff_counts_codepoints_not_bytes() {
    let current = "\u{e4}\u{f6}\u{fc}xyz";
    let changes = vec![unchanged("ab"), removed("c"), added("\u{df}"), unchanged("123")];
    assert_eq!(apply_changes(current, &changes), Ok("\u{e4}\u{f6}\u{df}xyz".to_string()));
}

#[test]
fn diff_overrun_is_invalid() {
    assert_eq!(apply_changes("abc", &vec![unchanged("abcd")]), Err(DocumentError::InvalidChange));
    assert_eq!(
        apply_changes("abc", &vec![removed("abcd"), unchanged("")]),
        Err(DocumentError::InvalidChange)
    );
    assert_eq!(
        apply_changes("abc", &vec![removed("ab"), unchanged("cd")]),
        Err(DocumentError::InvalidChange)
    );
    // A removed run may reach past the end as long as nothing is copied after it.
    assert_eq!(apply_changes("abc", &vec![removed("abcdef"), added("z")]), Ok("z".to_string()));
    // With both flags up a run counts as removed.
    let both = DiffChange { value: "ab".to_string(), added: true, removed: true };
    assert_eq!(apply_changes("abc", &vec![both, unchanged("c")]), Ok("c".to_string()));
    // What the diff does not reach is dropped.
    assert_eq!(apply_changes("abc", &vec![unchanged("a")]), Ok("a".to_string()));
}

#[test]
fn line_endings() {
    assert_eq!(detect_line_ending(""), LineEnding::LF);
    assert_eq!(detect_line_ending("abc"), LineEnding::LF);
    assert_eq!(detect_line_ending("a\nb\n"), LineEnding::LF);
    assert_eq!(detect_line_ending("a\r\nb\r\n"), LineEnding::CRLF);
    assert_eq!(detect_line_ending("a\r\n"), LineEnding::CRLF);
    assert_eq!(detect_line_ending("a\r\nb\n"), LineEnding::Mixed);
    assert_eq!(detect_line_ending("a\nb\r\n"), LineEnding::Mixed);
    assert_eq!(detect_line_ending("a\r\nb"), LineEnding::Mixed);
    assert_eq!(detect_line_ending("a\r"), LineEnding::CRLF);
    assert_eq!(detect_line_ending("a\rb\n"), LineEnding::LF);
    assert_eq!(detect_line_ending("\n"), LineEnding::LF);
    assert_eq!(detect_line_ending("\r\n\n"), LineEnding::Mixed);
}

#[test]
fn encoding_is_detected_from_the_bytes() {
    let utf8 = detect_encoding("Gr\u{fc}\u{df}e aus K\u{f6}ln, \u{4f60}\u{597d}".as_bytes());
    assert_eq!(utf8.encoding, "UTF-8");
    assert_eq!(utf8.confidence_percent, 90);
    let latin = detect_encoding(b"Gr\xfc\xdfe aus K\xf6ln und M\xfcnchen");
    assert_ne!(latin.encoding, "UTF-8");
    assert_eq!(latin.confidence_percent, 90);
}

#[test]
fn decoding_follows_the_label() {
    let bytes = b"Gr\xfc\xdfe";
    assert_eq!(decode_content("windows-1252", bytes), ("Gr\u{fc}\u{df}e".to_string(), false));
    let (replaced, had_errors) = decode_content("UTF-8", bytes);
    assert!(had_errors);
    assert_eq!(replaced, "Gr\u{fffd}\u{fffd}e");
    // An unknown label falls back to UTF-8.
    assert_eq!(decode_content("no-such-encoding", "h\u{e9}".as_bytes()), ("h\u{e9}".to_string(), false));
    assert_eq!(decode_content("no-such-encoding", bytes), (replaced, true));
    // A byte order mark is not part of the text.
    assert_eq!(decode_content("UTF-8", b"\xef\xbb\xbfhi"), ("hi".to_string(), false));
}

#[test]
fn replacement_characters_are_no_error() {
    let mut docs = DocumentManager::new("/ws".to_string());
    let bytes = b"ok \xff\xfe\xfd still text, just not valid UTF-8 everywhere: \xc3\x28";
    let opened = docs.open_file("/ws/odd.txt", Some(&probe(bytes)));
    assert!(opened.is_ok());
}

#[test]
fn cache_stays_within_its_budget() {
    let mut docs = DocumentManager::new("/ws".to_string());
    let block = "x".repeat(400 * 1024);
    for name in ["a", "b", "c", "d"] {
        docs.cache_content(format!("/ws/{}", name), block.clone(), plain_metadata(1));
        assert!(docs.current_cache_size() <= CACHE_SIZE_LIMIT);
    }
    // 400 KiB each under 1 MiB: two fit, the oldest leave first.
    assert_eq!(docs.cached_paths(), vec!["/ws/c", "/ws/d"]);
    assert_eq!(docs.current_cache_size(), 800 * 1024);
    assert_eq!(docs.cached_content("/ws/a"), None);
    assert_eq!(docs.cached_content("/ws/d"), Some(block.clone()));

    // Caching a path again replaces its entry and moves it to the back.
    docs.cache_content("/ws/c".to_string(), "small".to_string(), plain_metadata(1));
    assert_eq!(docs.cached_paths(), vec!["/ws/d", "/ws/c"]);
    assert_eq!(docs.current_cache_size(), 400 * 1024 + 5);

    // An entry of exactly the budget empties the cache and fits.
    let full = "y".repeat(CACHE_SIZE_LIMIT as usize);
    docs.cache_content("/ws/full".to_string(), full, plain_metadata(1));
    assert_eq!(docs.cached_paths(), vec!["/ws/full"]);
    assert_eq!(docs.current_cache_size(), CACHE_SIZE_LIMIT);
}

#[test]
fn cache_counts_bytes_not_characters() {
    let mut docs = DocumentManager::new("/ws".to_string());
    docs.cache_content("/ws/u".to_string(), "\u{e4}\u{1f600}".to_string(), plain_metadata(1));
    assert_eq!(docs.current_cache_size(), 6);
}

#[test]
fn a_text_above_the_budget_is_the_only_entry() {
    let mut docs = DocumentManager::new("/ws".to_string());
    docs.cache_content("/ws/a".to_string(), "a".to_string(), plain_metadata(1));
    docs.cache_content("/ws/huge".to_string(), "old".to_string(), plain_metadata(1));
    let huge = "z".repeat(CACHE_SIZE_LIMIT as usize + 1);
    docs.cache_content("/ws/huge".to_string(), huge.clone(), plain_metadata(1));
    assert_eq!(docs.cached_paths(), vec!["/ws/huge"]);
    assert_eq!(docs.cached_content("/ws/huge"), Some(huge));
    assert_eq!(docs.current_cache_size(), CACHE_SIZE_LIMIT + 1);
    // The next entry that fits brings the account back within the budget.
    docs.cache_content("/ws/b".to_string(), "b".to_string(), plain_metadata(1));
    assert_eq!(docs.cached_paths(), vec!["/ws/b"]);
    assert_eq!(docs.current_cache_size(), 1);
}

#[test]
fn a_change_to_a_text_above_the_budget_is_kept_and_saved() {
    let mut docs = DocumentManager::new("/ws".to_string());
    let path = "/ws/a.txt";
    docs.open_file(path, Some(&probe(b"seed"))).unwrap();
    docs.cache_content("/ws/other".to_string(), "other".to_string(), plain_metadata(1));
    let huge = "y".repeat(CACHE_SIZE_LIMIT as usize + 1);
    let changes = vec![unchanged("seed"), added(&huge)];
    let changed = docs.change_document(&doc(path, 1), changes, None, Some(stat(4)), 7);
    assert_eq!(changed, Ok(doc(path, 1)));
    let text = format!("seed{}", huge);
    assert_eq!(docs.cached_content(path), Some(text.clone()));
    assert_eq!(docs.get_document_content(path, None), Ok(text.clone()));
    assert_eq!(docs.cached_paths(), vec![path]);
    // The identity diff leaves the large text as it is.
    let same = vec![unchanged(&"?".repeat(text.chars().count()))];
    assert_eq!(docs.change_document(&doc(path, 2), same, None, Some(stat(4)), 8), Ok(doc(path, 2)));
    assert_eq!(docs.cached_content(path), Some(text.clone()));
    assert_eq!(docs.content_to_save(&doc(path, 3)), Ok(text));
    assert_eq!(docs.save_document(&doc(path, 3), 9), Ok(doc(path, 2)));
    assert!(!docs.get_document_state(path).unwrap().is_dirty);
}

#[test]
fn the_cache_goes_by_the_decoded_text() {
    let mut docs = DocumentManager::new("/ws".to_string());
    // 800 KiB of UTF-16 with a byte order mark decode to 1200 KiB of text.
    let mut bytes = vec![0xff, 0xfe];
    for _ in 0..400 * 1024 {
        bytes.extend_from_slice(&[0x2d, 0x4e]);
    }
    let text = docs.get_document_content("/ws/latin.txt", Some(&probe(&bytes))).unwrap();
    assert_eq!(text.len(), 1200 * 1024);
    assert!(text.starts_with('\u{4e2d}'));
    assert_eq!(docs.cached_content("/ws/latin.txt"), None);
    assert_eq!(docs.current_cache_size(), 0);
    // A file whose size says more than its text is cached by its text.
    let mut small = probe(b"tiny");
    small.metadata.size = CACHE_SIZE_LIMIT + 1;
    docs.get_document_content("/ws/tiny.txt", Some(&small)).unwrap();
    assert_eq!(docs.cached_content("/ws/tiny.txt"), Some("tiny".to_string()));
}

#[test]
fn invalidation_takes_the_size_off_the_account() {
    let mut docs = DocumentManager::new("/ws".to_string());
    docs.cache_content("/ws/a".to_string(), "12345".to_string(), plain_metadata(1));
    docs.cache_content("/ws/b".to_string(), "678".to_string(), plain_metadata(1));
    docs.cache_content("/ws/c".to_string(), "9".to_string(), plain_metadata(1));
    docs.invalidate_cache_for_file("/ws/b");
    assert_eq!(docs.cached_paths(), vec!["/ws/a", "/ws/c"]);
    assert_eq!(docs.current_cache_size(), 6);
    docs.invalidate_cache_for_file("/ws/missing");
    assert_eq!(docs.current_cache_size(), 6);
}

#[test]
fn files_above_the_cache_budget_are_returned_but_not_cached() {
    let mut docs = DocumentManager::new("/ws".to_string());
    let bytes = vec![b'a'; CACHE_SIZE_LIMIT as usize + 1];
    let text = docs.get_document_content("/ws/large.txt", Some(&probe(&bytes))).unwrap();
    assert_eq!(text.len(), bytes.len());
    assert_eq!(docs.cached_content("/ws/large.txt"), None);
    let at_limit = vec![b'a'; CACHE_SIZE_LIMIT as usize];
    docs.get_document_content("/ws/fits.txt", Some(&probe(&at_limit))).unwrap();
    assert!(docs.cached_content("/ws/fits.txt").is_some());
    assert_eq!(docs.current_cache_size(), CACHE_SIZE_LIMIT);
}

#[test]
fn load_document_builds_the_metadata() {
    let mut docs = DocumentManager::new("/ws".to_string());
    let encoding = FileEncoding { encoding: "windows-1252".to_string(), confidence_percent: 90 };
    let (text, metadata) =
        docs.load_document("/ws/w.txt", &stat(7), FileType::Text, encoding.clone(), "a\r\nb\r\n".to_string());
    assert_eq!(text, "a\r\nb\r\n");
    assert_eq!(metadata.size, 7);
    assert_eq!(metadata.created_at, Some(100));
    assert_eq!(metadata.modified_at, Some(200));
    assert_eq!(metadata.encoding, encoding);
    assert_eq!(metadata.line_ending, LineEnding::CRLF);
    assert_eq!(docs.cached_metadata("/ws/w.txt"), Some(metadata));
}

#[test]
fn document_error_messages() {
    assert_eq!(DocumentError::NotOpen.message(), "Document not found in states");
    assert_eq!(DocumentError::FileTooLarge.message(), "File is too large to load");
    assert_eq!(DocumentError::CannotReadBinary.message(), "Cannot read binary file as text");
    assert_eq!(DocumentError::CannotReadSymlink.message(), "Cannot read symlink directly");
    assert_eq!(DocumentError::NotCached.message(), "Document content not found in cache");
    assert_eq!(DocumentError::NotReadable.message(), "Failed to read file content");
    assert!(DocumentError::VersionConflict.message().starts_with("Version conflict"));
    assert!(DocumentError::InvalidChange.message().starts_with("Invalid change"));
}

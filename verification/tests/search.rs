use editor_core::search::lines::split_lines;
use editor_core::search::search_manager::append_flag;
use editor_core::search::search_manager::batch_results;
use editor_core::search::search_manager::result_item;
use editor_core::search::search_manager::rows_of_file;
use editor_core::search::search_manager::starts_with;
use editor_core::search::search_manager::SearchManager;
use editor_core::search::search_manager::SearchPlan;
use editor_core::search::search_manager::BATCH_SIZE;
use editor_core::search::search_manager::MAX_FILE_SIZE;
use editor_core::search::search_manager::POLL_INTERVAL_MS;
use editor_core::search::search_manager::SEARCH_TIMEOUT_SECS;
use editor_core::search::search_manager::TICK_TIMEOUT_MS;
use editor_core::search::types::LineContent;
use editor_core::search::types::SearchMessage;
use editor_core::search::types::SearchMode;
use editor_core::search::types::SearchResultItem;
use editor_core::search::types::SourceFile;
use std::collections::BTreeSet;

fn row(i: usize) -> LineContent {
    LineContent { path: format!("/ws/f{}.txt", i), line_number: i as u32, line: format!("line {}", i) }
}

fn file(path: &str, content: Option<&str>) -> SourceFile {
    SourceFile {
        path: path.to_string(),
        size: content.map(|c| c.len() as u64).unwrap_or(0),
        content: content.map(|c| c.to_string()),
    }
}

fn batch(message: &SearchMessage) -> (&str, &Vec<SearchResultItem>, bool) {
    match message {
        SearchMessage::Results { search_id, items, is_complete } => (search_id.as_str(), items, *is_complete),
        SearchMessage::Error { .. } => panic!("an error in place of results"),
    }
}

/// Polls until the search reports its last batch; returns the paths of the
/// matches of the last tick.
fn run_to_completion(search: &mut SearchManager, id: &str) -> BTreeSet<String> {
    for tick in 0..1000u64 {
        let messages = search.poll(tick);
        let mut paths = BTreeSet::new();
        let mut complete = false;
        for message in &messages {
            let (search_id, items, is_complete) = batch(message);
            assert_eq!(search_id, id);
            assert!(items.len() <= BATCH_SIZE);
            paths.extend(items.iter().map(|i| format!("{}:{}", i.path, i.line_number)));
            complete = is_complete;
        }
        if complete {
            assert!(!search.is_searching());
            return paths;
        }
    }
    panic!("the search did not come to an end");
}

#[test]
fn lines_are_split_at_line_feeds() {
    assert_eq!(split_lines(""), Vec::<String>::new());
    assert_eq!(split_lines("one"), vec!["one"]);
    assert_eq!(split_lines("one\ntwo\n"), vec!["one", "two"]);
    assert_eq!(split_lines("one\r\ntwo"), vec!["one", "two"]);
    assert_eq!(split_lines("\n\nx"), vec!["", "", "x"]);
    assert_eq!(split_lines("a\r\r\nb\r"), vec!["a\r", "b\r"]);
    assert_eq!(split_lines("a\rb\n"), vec!["a\rb"]);
    let std_lines: Vec<&str> = "k\u{f6}ln\r\n\nend\n".lines().collect();
    assert_eq!(split_lines("k\u{f6}ln\r\n\nend\n"), std_lines);
}

#[test]
fn filename_rows_are_keyed_by_path() {
    let rows = rows_of_file(SearchMode::Filename, &file("/ws/src/foo.rs", Some("a\nb")));
    assert_eq!(rows.len(), 1);
    assert_eq!(rows[0].0, LineContent { path: "/ws/src/foo.rs".to_string(), line_number: 0, line: String::new() });
    assert_eq!(rows[0].1, "/ws/src/foo.rs");
    assert!(rows_of_file(SearchMode::Filename, &file("/ws/target/debug/foo", None)).is_empty());
    assert!(rows_of_file(SearchMode::Filename, &file("/ws/.git/HEAD", None)).is_empty());
    assert_eq!(rows_of_file(SearchMode::Filename, &file("/ws/unreadable.bin", None)).len(), 1);
}

#[test]
fn content_rows_are_keyed_by_line() {
    let rows = rows_of_file(SearchMode::Content, &file("/ws/a.txt", Some("first\r\nsecond\n\nlast")));
    let lines: Vec<(u32, &str, &str)> =
        rows.iter().map(|(r, key)| (r.line_number, r.line.as_str(), key.as_str())).collect();
    assert_eq!(
        lines,
        vec![(1, "first", "first"), (2, "second", "second"), (3, "", ""), (4, "last", "last")]
    );
    assert!(rows.iter().all(|(r, _)| r.path == "/ws/a.txt"));
    assert!(rows_of_file(SearchMode::Content, &file("/ws/a.bin", None)).is_empty());
    assert!(rows_of_file(SearchMode::Content, &file("/ws/node_modules/a.js", Some("x"))).is_empty());
}

#[test]
fn content_rows_skip_large_files() {
    let mut big = file("/ws/big.txt", Some("line\n"));
    big.size = MAX_FILE_SIZE + 1;
    assert!(rows_of_file(SearchMode::Content, &big).is_empty());
    big.size = MAX_FILE_SIZE;
    assert_eq!(rows_of_file(SearchMode::Content, &big).len(), 1);
    // The size does not matter for a search of file names.
    big.size = MAX_FILE_SIZE + 1;
    assert_eq!(rows_of_file(SearchMode::Filename, &big).len(), 1);
}

#[test]
fn results_by_mode() {
    let found = LineContent { path: "/ws/a".to_string(), line_number: 12, line: "let x = 1;".to_string() };
    assert_eq!(
        result_item(SearchMode::Content, &found),
        SearchResultItem { path: "/ws/a".to_string(), line_number: 12, content: "let x = 1;".to_string() }
    );
    assert_eq!(
        result_item(SearchMode::Filename, &found),
        SearchResultItem { path: "/ws/a".to_string(), line_number: 0, content: String::new() }
    );
}

#[test]
fn results_go_out_in_batches_of_fifty() {
    let rows: Vec<LineContent> = (0..120).map(row).collect();
    let messages = batch_results("s1", SearchMode::Content, &rows, true);
    let sizes: Vec<(usize, bool)> = messages.iter().map(|m| (batch(m).1.len(), batch(m).2)).collect();
    assert_eq!(sizes, vec![(50, false), (50, false), (20, true)]);
    let all: Vec<u32> = messages.iter().flat_map(|m| batch(m).1.iter().map(|i| i.line_number)).collect();
    assert_eq!(all, (0..120).collect::<Vec<u32>>());
    assert!(messages.iter().all(|m| batch(m).0 == "s1"));

    let running = batch_results("s1", SearchMode::Content, &rows, false);
    assert!(running.iter().all(|m| !batch(m).2));
    assert_eq!(running.len(), 3);
}

#[test]
fn a_full_last_batch_is_the_complete_one() {
    let rows: Vec<LineContent> = (0..100).map(row).collect();
    let messages = batch_results("s", SearchMode::Filename, &rows, true);
    let sizes: Vec<(usize, bool)> = messages.iter().map(|m| (batch(m).1.len(), batch(m).2)).collect();
    assert_eq!(sizes, vec![(50, false), (50, true)]);
    let one: Vec<LineContent> = (0..50).map(row).collect();
    assert_eq!(batch_results("s", SearchMode::Filename, &one, true).len(), 1);
    let more: Vec<LineContent> = (0..51).map(row).collect();
    assert_eq!(batch_results("s", SearchMode::Filename, &more, true).len(), 2);
}

#[test]
fn a_search_without_matches_ends_with_an_empty_batch() {
    let done = batch_results("s", SearchMode::Filename, &Vec::new(), true);
    assert_eq!(
        done,
        vec![SearchMessage::Results { search_id: "s".to_string(), items: vec![], is_complete: true }]
    );
    assert!(batch_results("s", SearchMode::Filename, &Vec::new(), false).is_empty());
}

#[test]
fn prefixes() {
    assert!(starts_with("foobar", "foo"));
    assert!(starts_with("foo", "foo"));
    assert!(starts_with("foo", ""));
    assert!(!starts_with("fo", "foo"));
    assert!(!starts_with("xfoo", "foo"));
    assert!(starts_with("\u{e4}bc", "\u{e4}"));
}

#[test]
fn search_plans() {
    let mut search = SearchManager::new("/ws".to_string());
    let files = vec![file("/ws/foo.rs", Some("x")), file("/ws/bar.rs", Some("y"))];
    // No search before: cold, whatever the mode.
    assert_eq!(search.plan_search("foo", false), SearchPlan::ColdStart);
    assert_eq!(search.plan_search("foo", true), SearchPlan::ColdStart);
    assert_eq!(search.create_search("1", "foo", false, &files), SearchPlan::ColdStart);
    // The query extends the last one: hot.
    assert_eq!(search.plan_search("foob", false), SearchPlan::HotContinuation);
    assert_eq!(search.plan_search("foo", false), SearchPlan::HotContinuation);
    // Another query in the same mode: the pattern is replaced.
    assert_eq!(search.plan_search("fo", false), SearchPlan::Replace);
    assert_eq!(search.plan_search("bar", false), SearchPlan::Replace);
    // Another mode: cold.
    assert_eq!(search.plan_search("foob", true), SearchPlan::ColdStart);
    assert_eq!(search.create_search("2", "foob", false, &Vec::new()), SearchPlan::HotContinuation);
    assert_eq!(search.create_search("3", "x", true, &files), SearchPlan::ColdStart);
    assert!(search.is_searching());
    search.close_search();
    assert!(!search.is_searching());
    // After a cancelled search the index is gone: the next search is cold.
    assert_eq!(search.plan_search("xy", true), SearchPlan::ColdStart);
}

#[test]
fn search_continuation() {
    let mut files = Vec::new();
    for i in 0..1000 {
        let name = match i % 4 {
            0 => format!("/ws/src/foo_{}.rs", i),
            1 => format!("/ws/src/foobar_{}.rs", i),
            2 => format!("/ws/docs/readme_{}.md", i),
            _ => format!("/ws/src/baz_{}.rs", i),
        };
        files.push(file(&name, None));
    }
    let mut search = SearchManager::new("/ws".to_string());
    assert_eq!(search.create_search("first", "foo", false, &files), SearchPlan::ColdStart);
    let foo = run_to_completion(&mut search, "first");
    assert_eq!(foo.len(), 500);
    assert!(foo.iter().all(|p| p.contains("foo")));

    // The refined query runs on the index as it is: no file is handed in.
    assert_eq!(search.create_search("second", "foobar", false, &Vec::new()), SearchPlan::HotContinuation);
    let foobar = run_to_completion(&mut search, "second");
    assert_eq!(foobar.len(), 250);
    assert!(foobar.is_subset(&foo));
    assert!(foobar.iter().all(|p| p.contains("foobar")));
}

#[test]
fn content_search_finds_lines() {
    let files = vec![
        file("/ws/a.rs", Some("fn alpha() {}\nfn beta() {}\n")),
        file("/ws/b.rs", Some("struct Gamma;\r\nfn alphabet() {}\r\n")),
        file("/ws/target/c.rs", Some("fn alpha_in_build_output() {}\n")),
    ];
    let mut search = SearchManager::new("/ws".to_string());
    assert_eq!(search.create_search("c", "alpha", true, &files), SearchPlan::ColdStart);
    let found = run_to_completion(&mut search, "c");
    let expected: BTreeSet<String> = ["/ws/a.rs:1", "/ws/b.rs:2"].iter().map(|s| s.to_string()).collect();
    assert_eq!(found, expected);
}

#[test]
fn smart_case_matching() {
    let files = vec![file("/ws/Makefile", None), file("/ws/makefile.bak", None)];
    let mut search = SearchManager::new("/ws".to_string());
    search.create_search("lower", "makefile", false, &files);
    assert_eq!(run_to_completion(&mut search, "lower").len(), 2);
    search.create_search("upper", "Makefile", false, &Vec::new());
    let upper = run_to_completion(&mut search, "upper");
    assert_eq!(upper.len(), 1);
    assert!(upper.contains("/ws/Makefile:0"));
}

#[test]
fn cold_start_replaces_the_index() {
    let mut search = SearchManager::new("/ws".to_string());
    search.create_search("a", "one", false, &vec![file("/ws/one.txt", Some("two\n"))]);
    assert_eq!(run_to_completion(&mut search, "a").len(), 1);
    // The change of mode starts cold with the files of now.
    search.create_search("b", "two", true, &vec![file("/ws/other.txt", Some("two\nthree\n"))]);
    let found = run_to_completion(&mut search, "b");
    let expected: BTreeSet<String> = ["/ws/other.txt:1"].iter().map(|s| s.to_string()).collect();
    assert_eq!(found, expected);
}

#[test]
fn cancelled_search_reports_nothing() {
    let mut search = SearchManager::new("/ws".to_string());
    search.create_search("a", "one", false, &vec![file("/ws/one.txt", None)]);
    search.close_search();
    assert!(search.poll(0).is_empty());
    assert!(search.poll(100).is_empty());
}

#[test]
fn search_times_out() {
    assert_eq!(SEARCH_TIMEOUT_SECS, 10);
    assert_eq!(POLL_INTERVAL_MS, 100);
    assert_eq!(TICK_TIMEOUT_MS, 10);
    let mut search = SearchManager::new("/ws".to_string());
    assert!(search.poll(5).is_empty());
    search.create_search("slow", "x", false, &vec![file("/ws/x", None)]);
    // The clock of a search starts with the first tick that sees it; a tick
    // later than the timeout ends the search without a report.
    let mut late = SearchManager::new("/ws".to_string());
    late.create_search("late", "zzz", false, &vec![file("/ws/x", None)]);
    late.poll(1_000);
    if late.is_searching() {
        assert!(late.poll(11_000).len() <= 1);
        assert!(late.poll(11_001).is_empty());
        assert!(!late.is_searching());
    }
    assert!(search.is_searching());
}

#[test]
fn search_error_message() {
    assert_eq!(
        editor_core::search::types::SearchError::IndexingFailed.message(),
        "Failed to index the workspace"
    );
}

#[test]
fn only_a_hot_continuation_appends() {
    assert!(append_flag(SearchPlan::HotContinuation));
    assert!(!append_flag(SearchPlan::ColdStart));
    assert!(!append_flag(SearchPlan::Replace));
}

#[test]
fn a_report_ends_the_search_where_the_matcher_rests() {
    let mut search = SearchManager::new("/ws".to_string());
    search.create_search("r", "x", true, &vec![file("/ws/x.txt", Some("x\n"))]);
    let rows: Vec<LineContent> = (0..60).map(row).collect();
    // The matcher is still at work: all rows go out, none marked complete.
    let running = search.report(&rows, true);
    let sizes: Vec<(usize, bool)> = running.iter().map(|m| (batch(m).1.len(), batch(m).2)).collect();
    assert_eq!(sizes, vec![(50, false), (10, false)]);
    assert!(running.iter().all(|m| batch(m).0 == "r"));
    assert_eq!(batch(&running[0]).1[3].content, "line 3");
    assert!(search.is_searching());
    assert!(search.report(&Vec::new(), true).is_empty());
    assert!(search.is_searching());
    // The matcher rests: the last batch is complete and the search is over.
    let done = search.report(&rows, false);
    let sizes: Vec<(usize, bool)> = done.iter().map(|m| (batch(m).1.len(), batch(m).2)).collect();
    assert_eq!(sizes, vec![(50, false), (10, true)]);
    assert!(!search.is_searching());
    // A report after the end does not start the search again.
    search.report(&rows, true);
    assert!(!search.is_searching());
}

//! The searcher: which rows are indexed, how a new query relates to the one
//! before it, and how matches go out in batches.

use vstd::prelude::*;
use crate::search::lines::lines_of;
use crate::search::lines::split_lines;
use crate::search::matcher::found_in;
use crate::search::matcher::inject_row;
use crate::search::matcher::matched_rows;
use crate::search::matcher::matcher_query;
use crate::search::matcher::matcher_rows;
use crate::search::matcher::new_matcher;
use crate::search::matcher::reparse_pattern;
use crate::search::matcher::restart_matcher;
use crate::search::matcher::tick_matcher;
use crate::search::types::LineContent;
use crate::search::types::RowView;
use crate::search::types::SearchMessage;
use crate::search::types::SearchMode;
use crate::search::types::SearchResultItem;
use crate::search::types::SourceFile;
use crate::text::chars_of;
use crate::utils::path_utils::ignored;
use crate::utils::path_utils::is_ignored;

verus! {

/// The number of matches in a batch.
pub const BATCH_SIZE: usize = 50;

/// How long a tick waits for the matcher's workers, in milliseconds.
pub const TICK_TIMEOUT_MS: u64 = 10;

/// How often the poller ticks, in milliseconds.
pub const POLL_INTERVAL_MS: u64 = 100;

/// How long a search may run, in seconds.
pub const SEARCH_TIMEOUT_SECS: u64 = 10;

/// The largest file whose lines are indexed: 1 MiB.
pub const MAX_FILE_SIZE: u64 = 1024 * 1024;

/// How a new query is taken up.
#[derive(Clone, Copy, Debug, PartialEq, Eq, Structural)]
pub enum SearchPlan {
    /// The index is built anew and every row is matched.
    ColdStart,
    /// The index stays, and the matcher refines the matches it has.
    HotContinuation,
    /// The index stays, and every row is matched anew.
    Replace,
}

/// How `query` in `mode` is taken up after a search for `last_query` in
/// `last_mode`: cold where there was no search before or the mode differs,
/// hot where the new query starts with the last one, else by replacing the
/// pattern.
pub open spec fn plan_of(
    last_mode: SearchMode,
    last_query: Option<Seq<char>>,
    mode: SearchMode,
    query: Seq<char>,
) -> SearchPlan {
    match last_query {
        None => SearchPlan::ColdStart,
        Some(last) => if last_mode != mode {
            SearchPlan::ColdStart
        } else if last.is_prefix_of(query) {
            SearchPlan::HotContinuation
        } else {
            SearchPlan::Replace
        },
    }
}

/// A row for the index with the text that is handed to the matcher as the
/// row's key.
pub struct KeyedRow {
    pub row: RowView,
    pub key: Seq<char>,
}

/// The rows of `keyed`, without their keys.
pub open spec fn rows_of(keyed: Seq<KeyedRow>) -> Seq<RowView> {
    keyed.map_values(|k: KeyedRow| k.row)
}

/// Whether the matcher is told to append when a query is taken up by `plan`:
/// on a hot continuation, and only then.
pub open spec fn appends(plan: SearchPlan) -> bool {
    plan == SearchPlan::HotContinuation
}

/// The flag that the matcher is given with the new pattern: to refine the
/// matches it has on a hot continuation, to match every row anew otherwise.
pub fn append_flag(plan: SearchPlan) -> (r: bool)
    ensures
        r == appends(plan),
{
    match plan {
        SearchPlan::HotContinuation => true,
        SearchPlan::ColdStart => false,
        SearchPlan::Replace => false,
    }
}

/// The number that the line at position `i` of a file has: lines are counted
/// from 1, and the count stops at the largest `u32`.
pub open spec fn line_number_at(i: int) -> u32 {
    if i + 1 <= u32::MAX {
        (i + 1) as u32
    } else {
        u32::MAX
    }
}

/// The rows for the lines of the file at `path`: one per line, with the
/// line's text as its key.
pub open spec fn line_rows(path: Seq<char>, lines: Seq<Seq<char>>) -> Seq<KeyedRow> {
    Seq::new(
        lines.len(),
        |i: int|
            KeyedRow {
                row: RowView { path, line_number: line_number_at(i), line: lines[i] },
                key: lines[i],
            },
    )
}

/// The rows that `file` gives to the index, each with the key that is handed
/// to the matcher for it: none where a component of its path is ignored; in
/// filename mode the file itself, with its path as key; in content mode its
/// lines, unless it is larger than `MAX_FILE_SIZE` or could not be read as
/// text.
pub open spec fn file_rows(mode: SearchMode, file: SourceFile) -> Seq<KeyedRow> {
    if ignored(file.path@) {
        Seq::empty()
    } else {
        match mode {
            SearchMode::Filename => seq![
                KeyedRow {
                    row: RowView { path: file.path@, line_number: 0, line: Seq::empty() },
                    key: file.path@,
                },
            ],
            SearchMode::Content => match file.content {
                Some(content) => if file.size > MAX_FILE_SIZE {
                    Seq::empty()
                } else {
                    line_rows(file.path@, lines_of(content@))
                },
                None => Seq::empty(),
            },
        }
    }
}

/// The rows that `files` give to the index, file after file.
pub open spec fn index_rows(mode: SearchMode, files: Seq<SourceFile>) -> Seq<KeyedRow>
    decreases files.len(),
{
    if files.len() == 0 {
        Seq::empty()
    } else {
        index_rows(mode, files.drop_last()) + file_rows(mode, files.last())
    }
}

/// A match as plain values: path, line number, text.
pub struct ItemView {
    pub path: Seq<char>,
    pub line_number: u32,
    pub content: Seq<char>,
}

/// What is reported for a row that matched: in content mode the line, in
/// filename mode the path alone.
pub open spec fn item_of(mode: SearchMode, row: RowView) -> ItemView {
    match mode {
        SearchMode::Content => ItemView {
            path: row.path,
            line_number: row.line_number,
            content: row.line,
        },
        SearchMode::Filename => ItemView { path: row.path, line_number: 0, content: Seq::empty() },
    }
}

/// The number of batches in which `count` matches go out: at most
/// `BATCH_SIZE` matches each, and one empty batch to report the end of a
/// search without matches.
pub open spec fn batch_count(count: nat, done: bool) -> nat {
    if count == 0 {
        if done {
            1
        } else {
            0
        }
    } else {
        (count + BATCH_SIZE - 1) as nat / (BATCH_SIZE as nat)
    }
}

/// The rows of batch `i`.
pub open spec fn batch_rows(rows: Seq<LineContent>, i: int) -> Seq<LineContent> {
    rows.subrange(
        i * BATCH_SIZE,
        if (i + 1) * BATCH_SIZE <= rows.len() {
            (i + 1) * BATCH_SIZE
        } else {
            rows.len() as int
        },
    )
}

/// Whether `message` is the batch that reports `rows` for the search `id`.
pub open spec fn is_batch(
    message: SearchMessage,
    id: Seq<char>,
    mode: SearchMode,
    rows: Seq<LineContent>,
    complete: bool,
) -> bool {
    message matches SearchMessage::Results { search_id, items, is_complete } && search_id@ == id
        && is_complete == complete && items@.len() == rows.len() && forall|k: int|
        0 <= k < rows.len() ==> item_of(mode, rows[k]@) == (ItemView {
            path: (#[trigger] items@[k]).path@,
            line_number: items@[k].line_number,
            content: items@[k].content@,
        })
}

/// Whether `messages` report `rows` for the search `id` in batches, in order,
/// the last of them marked complete where the search is done.
pub open spec fn are_batches(
    messages: Seq<SearchMessage>,
    id: Seq<char>,
    mode: SearchMode,
    rows: Seq<LineContent>,
    done: bool,
) -> bool {
    &&& messages.len() == batch_count(rows.len(), done)
    &&& forall|i: int|
        0 <= i < messages.len() ==> is_batch(
            #[trigger] messages[i],
            id,
            mode,
            batch_rows(rows, i),
            done && i == messages.len() - 1,
        )
}

/// Whether `messages` are a report of the search `id` over the index `rows`:
/// batches of rows of the index, marked complete where the matcher was done,
/// which also ends the search.
pub open spec fn is_report(
    messages: Seq<SearchMessage>,
    id: Seq<char>,
    mode: SearchMode,
    rows: Seq<RowView>,
    searching_before: bool,
    searching_after: bool,
) -> bool {
    exists|found: Seq<LineContent>, done: bool|
        {
            &&& #[trigger] are_batches(messages, id, mode, found, done)
            &&& found_in(found, rows)
            &&& searching_after == (searching_before && !done)
        }
}

/// What is reported for a row that matched.
pub fn result_item(mode: SearchMode, row: &LineContent) -> (r: SearchResultItem)
    ensures
        item_of(mode, row@) == (ItemView {
            path: r.path@,
            line_number: r.line_number,
            content: r.content@,
        }),
{
    match mode {
        SearchMode::Content => SearchResultItem {
            path: row.path.clone(),
            line_number: row.line_number,
            content: row.line.clone(),
        },
        SearchMode::Filename => SearchResultItem {
            path: row.path.clone(),
            line_number: 0,
            content: String::new(),
        },
    }
}

/// Packs the rows that matched into the messages that report them.
pub fn batch_results(search_id: &str, mode: SearchMode, rows: &Vec<LineContent>, done: bool) -> (r:
    Vec<SearchMessage>)
    ensures
        are_batches(r@, search_id@, mode, rows@, done),
{
    let mut out: Vec<SearchMessage> = Vec::new();
    let n = rows.len();
    if n == 0 {
        if done {
            out.push(
                SearchMessage::Results {
                    search_id: search_id.to_owned(),
                    items: Vec::new(),
                    is_complete: true,
                },
            );
            assert(batch_rows(rows@, 0) =~= Seq::<LineContent>::empty());
        }
        return out;
    }
    let mut start: usize = 0;
    while start < n
        invariant
            n == rows.len(),
            n > 0,
            start <= n,
            start < n ==> start == out.len() * BATCH_SIZE,
            start == n ==> out.len() == batch_count(n as nat, done),
            out.len() <= batch_count(n as nat, done),
            forall|i: int|
                0 <= i < out.len() ==> is_batch(
                    #[trigger] out@[i],
                    search_id@,
                    mode,
                    batch_rows(rows@, i),
                    done && i == batch_count(n as nat, done) - 1,
                ),
        decreases n - start,
    {
        let end = if n - start > BATCH_SIZE {
            start + BATCH_SIZE
        } else {
            n
        };
        let ghost index = out.len() as int;
        let ghost chunk = batch_rows(rows@, index);
        assert(chunk =~= rows@.subrange(start as int, end as int));
        let mut items: Vec<SearchResultItem> = Vec::new();
        let mut k: usize = start;
        while k < end
            invariant
                start <= k <= end <= n,
                n == rows.len(),
                items.len() == k - start,
                forall|j: int|
                    0 <= j < items.len() ==> item_of(mode, rows@[start + j]@) == (ItemView {
                        path: (#[trigger] items@[j]).path@,
                        line_number: items@[j].line_number,
                        content: items@[j].content@,
                    }),
            decreases end - k,
        {
            items.push(result_item(mode, &rows[k]));
            k += 1;
        }
        let is_complete = done && end == n;
        let ghost before = out@;
        out.push(SearchMessage::Results { search_id: search_id.to_owned(), items, is_complete });
        proof {
            assert(end == n <==> out.len() == batch_count(n as nat, done));
            assert forall|i: int| 0 <= i < out.len() implies is_batch(
                #[trigger] out@[i],
                search_id@,
                mode,
                batch_rows(rows@, i),
                done && i == batch_count(n as nat, done) - 1,
            ) by {
                if i < index {
                    assert(out@[i] == before[i]);
                }
            }
        }
        start = end;
    }
    out
}

/// The rows that `file` gives to the index, each with its key.
pub fn rows_of_file(mode: SearchMode, file: &SourceFile) -> (r: Vec<(LineContent, String)>)
    ensures
        r@.len() == file_rows(mode, *file).len(),
        forall|i: int|
            0 <= i < r@.len() ==> (KeyedRow { row: (#[trigger] r@[i]).0@, key: r@[i].1@ })
                == file_rows(mode, *file)[i],
{
    let mut out: Vec<(LineContent, String)> = Vec::new();
    if is_ignored(file.path.as_str()) {
        return out;
    }
    match mode {
        SearchMode::Filename => {
            out.push(
                (
                    LineContent { path: file.path.clone(), line_number: 0, line: String::new() },
                    file.path.clone(),
                ),
            );
        },
        SearchMode::Content => {
            match &file.content {
                Some(content) => {
                    if file.size <= MAX_FILE_SIZE {
                        let lines = split_lines(content.as_str());
                        let ghost wanted = line_rows(file.path@, lines_of(content@));
                        let mut i: usize = 0;
                        while i < lines.len()
                            invariant
                                i <= lines.len(),
                                lines.deep_view() == lines_of(content@),
                                wanted == line_rows(file.path@, lines_of(content@)),
                                out@.len() == i,
                                forall|j: int|
                                    0 <= j < i ==> (KeyedRow {
                                        row: (#[trigger] out@[j]).0@,
                                        key: out@[j].1@,
                                    }) == wanted[j],
                            decreases lines.len() - i,
                        {
                            let line_number: u32 = if i < u32::MAX as usize {
                                (i + 1) as u32
                            } else {
                                u32::MAX
                            };
                            assert(lines.deep_view()[i as int] == lines@[i as int]@);
                            out.push(
                                (
                                    LineContent {
                                        path: file.path.clone(),
                                        line_number,
                                        line: lines[i].clone(),
                                    },
                                    lines[i].clone(),
                                ),
                            );
                            i += 1;
                        }
                    }
                },
                None => {},
            }
        },
    }
    out
}

/// The searcher of a workspace.
pub struct SearchManager {
    workspace_path: String,
    searcher: nucleo::Nucleo<LineContent>,
    last_query: Option<String>,
    is_searching: bool,
    current_mode: SearchMode,
    search_id: String,
    search_start_ms: Option<u64>,
}

impl SearchManager {
    /// The path of the workspace root.
    pub closed spec fn workspace(&self) -> Seq<char> {
        self.workspace_path@
    }

    /// The rows of the index.
    pub closed spec fn rows(&self) -> Seq<RowView> {
        matcher_rows(self.searcher)
    }

    /// The pattern that the matcher holds.
    pub closed spec fn pattern(&self) -> Seq<char> {
        matcher_query(self.searcher)
    }

    /// The query of the search before, `None` where the next search starts
    /// cold whatever it asks for.
    pub closed spec fn last_query(&self) -> Option<Seq<char>> {
        match self.last_query {
            Some(q) => Some(q@),
            None => None,
        }
    }

    /// The mode of the search before.
    pub closed spec fn mode(&self) -> SearchMode {
        self.current_mode
    }

    /// Whether a search is under way.
    pub closed spec fn searching(&self) -> bool {
        self.is_searching
    }

    /// The id of the search under way.
    pub closed spec fn id(&self) -> Seq<char> {
        self.search_id@
    }

    /// When the poller first saw the search under way.
    pub closed spec fn started_at(&self) -> Option<u64> {
        self.search_start_ms
    }

    /// The searcher's invariant: the query of the search before is the
    /// pattern that the matcher holds.
    pub open spec fn wf(&self) -> bool {
        self.last_query() matches Some(q) ==> self.pattern() == q
    }

    /// A searcher with an empty index for the workspace at `workspace_path`.
    pub fn new(workspace_path: String) -> (r: Self)
        ensures
            r.wf(),
            r.workspace() == workspace_path@,
            r.rows() == Seq::<RowView>::empty(),
            r.last_query() is None,
            !r.searching(),
            r.started_at() is None,
    {
        SearchManager {
            workspace_path,
            searcher: new_matcher(),
            last_query: None,
            is_searching: false,
            current_mode: SearchMode::Filename,
            search_id: String::new(),
            search_start_ms: None,
        }
    }

    /// The path of the workspace root.
    pub fn workspace_path(&self) -> (r: &String)
        ensures
            r@ == self.workspace(),
    {
        &self.workspace_path
    }

    /// Whether a search is under way.
    pub fn is_searching(&self) -> (r: bool)
        ensures
            r == self.searching(),
    {
        self.is_searching
    }

    /// How a search for `query` would be taken up. A cold start needs the files
    /// of the workspace.
    pub fn plan_search(&self, query: &str, search_content: bool) -> (r: SearchPlan)
        ensures
            r == plan_of(
                self.mode(),
                self.last_query(),
                if search_content {
                    SearchMode::Content
                } else {
                    SearchMode::Filename
                },
                query@,
            ),
    {
        let mode = if search_content {
            SearchMode::Content
        } else {
            SearchMode::Filename
        };
        match &self.last_query {
            None => SearchPlan::ColdStart,
            Some(last) => {
                if !same_mode(self.current_mode, mode) {
                    SearchPlan::ColdStart
                } else if starts_with(query, last.as_str()) {
                    SearchPlan::HotContinuation
                } else {
                    SearchPlan::Replace
                }
            },
        }
    }

    /// Puts the rows of `files` into the index.
    fn initialize_files(&mut self, mode: SearchMode, files: &Vec<SourceFile>)
        ensures
            final(self).rows() == old(self).rows() + rows_of(index_rows(mode, files@)),
            final(self).pattern() == old(self).pattern(),
            final(self).last_query() == old(self).last_query(),
            final(self).mode() == old(self).mode(),
            final(self).searching() == old(self).searching(),
            final(self).id() == old(self).id(),
            final(self).started_at() == old(self).started_at(),
            final(self).workspace() == old(self).workspace(),
    {
        let mut i: usize = 0;
        assert(files@.take(0) =~= Seq::<SourceFile>::empty());
        assert(self.rows() =~= old(self).rows() + rows_of(index_rows(mode, files@.take(0))));
        while i < files.len()
            invariant
                i <= files.len(),
                self.rows() == old(self).rows() + rows_of(index_rows(mode, files@.take(i as int))),
                self.pattern() == old(self).pattern(),
                self.last_query() == old(self).last_query(),
                self.mode() == old(self).mode(),
                self.searching() == old(self).searching(),
                self.id() == old(self).id(),
                self.started_at() == old(self).started_at(),
                self.workspace() == old(self).workspace(),
            decreases files.len() - i,
        {
            let mut rows = rows_of_file(mode, &files[i]);
            let ghost wanted = file_rows(mode, files@[i as int]);
            let ghost base = self.rows();
            let ghost all = rows@;
            let ghost mut k: int = 0;
            assert(rows@ =~= all.skip(0));
            assert(wanted.take(0) =~= Seq::<KeyedRow>::empty());
            while rows.len() > 0
                invariant
                    0 <= k,
                    k + rows@.len() == all.len() == wanted.len(),
                    rows@ == all.skip(k),
                    forall|j: int|
                        0 <= j < all.len() ==> (KeyedRow {
                            row: (#[trigger] all[j]).0@,
                            key: all[j].1@,
                        }) == wanted[j],
                    self.rows() == base + rows_of(wanted.take(k)),
                    self.pattern() == old(self).pattern(),
                    self.last_query() == old(self).last_query(),
                    self.mode() == old(self).mode(),
                    self.searching() == old(self).searching(),
                    self.id() == old(self).id(),
                    self.started_at() == old(self).started_at(),
                    self.workspace() == old(self).workspace(),
                decreases rows.len(),
            {
                let (row, key) = rows.remove(0);
                assert(all[k] == (row, key));
                assert(rows@ =~= all.skip(k + 1));
                inject_row(&mut self.searcher, row, key);
                assert(self.rows() =~= base + rows_of(wanted.take(k + 1))) by {
                    assert(wanted.take(k + 1) =~= wanted.take(k).push(wanted[k]));
                    assert(rows_of(wanted.take(k + 1)) =~= rows_of(wanted.take(k)).push(
                        wanted[k].row,
                    ));
                }
                proof {
                    k = k + 1;
                }
            }
            assert(wanted.take(k) =~= wanted);
            assert(files@.take(i + 1).drop_last() =~= files@.take(i as int));
            assert(files@.take(i + 1).last() == files@[i as int]);
            assert(rows_of(index_rows(mode, files@.take(i + 1))) =~= rows_of(
                index_rows(mode, files@.take(i as int)),
            ) + rows_of(wanted));
            assert(self.rows() =~= old(self).rows() + rows_of(
                index_rows(mode, files@.take(i + 1)),
            ));
            i += 1;
        }
        assert(files@.take(files.len() as int) =~= files@);
    }

    /// Starts the search `id` for `query`.
    ///
    /// On a cold start the index is emptied and filled with the rows of
    /// `files`, and every row is matched. On a hot continuation the matcher
    /// refines the matches of the query before. Otherwise every row of the
    /// index as it stands is matched anew. `files` is read on a cold start
    /// only. The matcher gets the new pattern in one call, with the flag
    /// that `append_flag` gives for the plan.
    pub fn create_search(
        &mut self,
        id: &str,
        query: &str,
        search_content: bool,
        files: &Vec<SourceFile>,
    ) -> (r: SearchPlan)
        requires
            old(self).wf(),
        ensures
            final(self).wf(),
            final(self).workspace() == old(self).workspace(),
            r == plan_of(old(self).mode(), old(self).last_query(), final(self).mode(), query@),
            final(self).mode() == if search_content {
                SearchMode::Content
            } else {
                SearchMode::Filename
            },
            final(self).rows() == if r == SearchPlan::ColdStart {
                rows_of(index_rows(final(self).mode(), files@))
            } else {
                old(self).rows()
            },
            final(self).pattern() == query@,
            final(self).last_query() == Some(query@),
            final(self).searching(),
            final(self).id() == id@,
            final(self).started_at() is None,
    {
        let plan = self.plan_search(query, search_content);
        let mode = if search_content {
            SearchMode::Content
        } else {
            SearchMode::Filename
        };
        self.current_mode = mode;
        match plan {
            SearchPlan::ColdStart => {
                restart_matcher(&mut self.searcher);
                self.initialize_files(mode, files);
                assert(self.rows() =~= rows_of(index_rows(mode, files@)));
            },
            _ => {},
        }
        reparse_pattern(&mut self.searcher, query, append_flag(plan));
        self.last_query = Some(query.to_owned());
        self.is_searching = true;
        self.search_id = id.to_owned();
        self.search_start_ms = None;
        plan
    }

    /// Takes in what a tick of the matcher gave: the rows that it has matched
    /// by now, and whether its workers are still at it. All the rows are
    /// reported in batches, the last of which is marked complete where the
    /// matcher rests; and where the matcher rests, the search is over.
    pub fn report(&mut self, found: &Vec<LineContent>, running: bool) -> (r: Vec<SearchMessage>)
        ensures
            final(self).workspace() == old(self).workspace(),
            final(self).rows() == old(self).rows(),
            final(self).pattern() == old(self).pattern(),
            final(self).last_query() == old(self).last_query(),
            final(self).mode() == old(self).mode(),
            final(self).id() == old(self).id(),
            final(self).started_at() == old(self).started_at(),
            final(self).searching() == (old(self).searching() && running),
            are_batches(r@, old(self).id(), old(self).mode(), found@, !running),
    {
        let messages = batch_results(
            self.search_id.as_str(),
            self.current_mode,
            found,
            !running,
        );
        if !running {
            self.is_searching = false;
        }
        messages
    }

    /// One tick of the search under way: lets the matcher work for
    /// `TICK_TIMEOUT_MS` and reports all matches that it has by then, as
    /// `report` says. What the matcher has found, and whether it rests,
    /// depends on how far its workers have come.
    pub fn process_results(&mut self) -> (r: Vec<SearchMessage>)
        requires
            old(self).wf(),
        ensures
            final(self).wf(),
            final(self).workspace() == old(self).workspace(),
            final(self).rows() == old(self).rows(),
            final(self).pattern() == old(self).pattern(),
            final(self).last_query() == old(self).last_query(),
            final(self).mode() == old(self).mode(),
            final(self).id() == old(self).id(),
            final(self).started_at() == old(self).started_at(),
            final(self).searching() ==> old(self).searching(),
            is_report(
                r@,
                old(self).id(),
                old(self).mode(),
                old(self).rows(),
                old(self).searching(),
                final(self).searching(),
            ),
    {
        let running = tick_matcher(&mut self.searcher, TICK_TIMEOUT_MS);
        let found = matched_rows(&self.searcher);
        proof {
            assert(matcher_rows(self.searcher) == old(self).rows());
            assert(found_in(found@, old(self).rows()));
        }
        let messages = self.report(&found, running);
        proof {
            assert(are_batches(messages@, old(self).id(), old(self).mode(), found@, !running));
        }
        messages
    }

    /// The poller's tick at `now_ms`, read from a monotonic clock.
    ///
    /// Without a search under way nothing happens. A search that the poller
    /// has seen for more than `SEARCH_TIMEOUT_SECS` is ended without a
    /// report. Otherwise the matches found so far are reported.
    pub fn poll(&mut self, now_ms: u64) -> (r: Vec<SearchMessage>)
        requires
            old(self).wf(),
        ensures
            final(self).wf(),
            final(self).workspace() == old(self).workspace(),
            final(self).rows() == old(self).rows(),
            final(self).pattern() == old(self).pattern(),
            final(self).last_query() == old(self).last_query(),
            final(self).mode() == old(self).mode(),
            final(self).id() == old(self).id(),
            final(self).searching() ==> old(self).searching(),
            !old(self).searching() ==> r@.len() == 0 && final(self).started_at() is None,
            old(self).searching() ==> final(self).started_at() == Some(
                search_start(old(self).started_at(), now_ms),
            ),
            old(self).searching() && search_timed_out(old(self).started_at(), now_ms) ==> r@.len()
                == 0 && !final(self).searching(),
            old(self).searching() && !search_timed_out(old(self).started_at(), now_ms)
                ==> is_report(
                r@,
                old(self).id(),
                old(self).mode(),
                old(self).rows(),
                true,
                final(self).searching(),
            ),
    {
        if !self.is_searching {
            self.search_start_ms = None;
            return Vec::new();
        }
        let start = match self.search_start_ms {
            Some(start) => start,
            None => now_ms,
        };
        self.search_start_ms = Some(start);
        if now_ms > start && now_ms - start > SEARCH_TIMEOUT_SECS * 1000 {
            self.is_searching = false;
            return Vec::new();
        }
        self.process_results()
    }

    /// Ends the search under way and empties the index. The next search
    /// starts cold.
    pub fn close_search(&mut self)
        ensures
            final(self).wf(),
            final(self).workspace() == old(self).workspace(),
            !final(self).searching(),
            final(self).rows() == Seq::<RowView>::empty(),
            final(self).last_query() is None,
            final(self).mode() == old(self).mode(),
            final(self).id() == old(self).id(),
            final(self).started_at() == old(self).started_at(),
    {
        self.is_searching = false;
        restart_matcher(&mut self.searcher);
        self.last_query = None;
    }
}

/// When the poller first saw the search under way: now, where it had not seen
/// it before.
pub open spec fn search_start(started_at: Option<u64>, now_ms: u64) -> u64 {
    match started_at {
        Some(start) => start,
        None => now_ms,
    }
}

/// Whether the search has run for more than `SEARCH_TIMEOUT_SECS` at `now_ms`.
pub open spec fn search_timed_out(started_at: Option<u64>, now_ms: u64) -> bool {
    now_ms - search_start(started_at, now_ms) > SEARCH_TIMEOUT_SECS * 1000
}

/// Whether two modes are the same.
pub fn same_mode(a: SearchMode, b: SearchMode) -> (r: bool)
    ensures
        r == (a == b),
{
    match (a, b) {
        (SearchMode::Filename, SearchMode::Filename) => true,
        (SearchMode::Content, SearchMode::Content) => true,
        _ => false,
    }
}

/// Whether `text` starts with `prefix`.
pub fn starts_with(text: &str, prefix: &str) -> (r: bool)
    ensures
        r == prefix@.is_prefix_of(text@),
{
    let t = chars_of(text);
    let p = chars_of(prefix);
    if p.len() > t.len() {
        return false;
    }
    let mut i: usize = 0;
    while i < p.len()
        invariant
            i <= p.len() <= t.len(),
            t@ == text@,
            p@ == prefix@,
            forall|j: int| 0 <= j < i ==> p@[j] == t@[j],
        decreases p.len() - i,
    {
        if p[i] != t[i] {
            assert(p@ != t@.subrange(0, p@.len() as int)) by {
                assert(t@.subrange(0, p@.len() as int)[i as int] == t@[i as int]);
            }
            return false;
        }
        i += 1;
    }
    assert(p@ =~= t@.subrange(0, p@.len() as int));
    true
}

} // verus!

//! The fuzzy matcher that the search runs on: an index of rows, a pattern, and
//! background workers that match one against the other.

use vstd::prelude::*;
use crate::search::types::LineContent;
use crate::search::types::RowView;

verus! {

/// `nucleo::Nucleo`, the matcher with its index and its workers. What it holds
/// is spoken of through `matcher_rows` and `matcher_query`.
#[verifier::external_type_specification]
#[verifier::external_body]
#[verifier::reject_recursive_types(T)]
pub struct ExNucleo<T: Sync + Send + 'static>(nucleo::Nucleo<T>);

/// Whether every row of `found` is a row of the index `rows`.
pub open spec fn found_in(found: Seq<LineContent>, rows: Seq<RowView>) -> bool {
    forall|i: int|
        0 <= i < found.len() ==> exists|k: int| 0 <= k < rows.len() && rows[k] == #[trigger] found[i]@
}

/// The rows that the matcher holds, in the order in which they were injected
/// since the last restart. The text by which the matcher matches a row is its
/// own affair and no part of this.
pub uninterp spec fn matcher_rows(matcher: nucleo::Nucleo<LineContent>) -> Seq<RowView>;

/// The text of the pattern that the matcher was last given, empty at first.
pub uninterp spec fn matcher_query(matcher: nucleo::Nucleo<LineContent>) -> Seq<char>;

/// `nucleo::Nucleo::new` with the configuration for matching paths, a
/// notification that does nothing, one worker per hardware thread and one
/// column: a matcher without rows, with an empty pattern.
#[verifier::external_body]
pub(crate) fn new_matcher() -> (r: nucleo::Nucleo<LineContent>)
    ensures
        matcher_rows(r) == Seq::<RowView>::empty(),
        matcher_query(r) == Seq::<char>::empty(),
{
    nucleo::Nucleo::new(nucleo::Config::DEFAULT.match_paths(), std::sync::Arc::new(|| {}), None, 1)
}

/// `Nucleo::restart(true)`: all rows leave the matcher and its snapshot at
/// once. The pattern stays.
#[verifier::external_body]
pub(crate) fn restart_matcher(matcher: &mut nucleo::Nucleo<LineContent>)
    ensures
        matcher_rows(*final(matcher)) == Seq::<RowView>::empty(),
        matcher_query(*final(matcher)) == matcher_query(*old(matcher)),
{
    matcher.restart(true);
}

/// `Nucleo::injector` and `Injector::push`: `row` joins the rows of the
/// matcher, and `key` is handed over as the text of its one column. The
/// matcher keeps the key in a form of its own (of a grapheme cluster only the
/// first code point), so nothing is claimed of the text that it then holds.
#[verifier::external_body]
pub(crate) fn inject_row(matcher: &mut nucleo::Nucleo<LineContent>, row: LineContent, key: String)
    ensures
        matcher_rows(*final(matcher)) == matcher_rows(*old(matcher)).push(row@),
        matcher_query(*final(matcher)) == matcher_query(*old(matcher)),
{
    matcher.injector().push(row, move |_, columns| columns[0] = key.into());
}

/// `MultiPattern::reparse` on the matcher's one column, with smart case
/// matching and smart normalisation. With `append` the caller promises that
/// the text of the previous pattern is a prefix of `query`; the matcher then
/// refines its earlier matches in place of matching every row anew.
#[verifier::external_body]
pub(crate) fn reparse_pattern(matcher: &mut nucleo::Nucleo<LineContent>, query: &str, append: bool)
    requires
        append ==> matcher_query(*old(matcher)).is_prefix_of(query@),
    ensures
        matcher_query(*final(matcher)) == query@,
        matcher_rows(*final(matcher)) == matcher_rows(*old(matcher)),
{
    matcher.pattern.reparse(
        0,
        query,
        nucleo::pattern::CaseMatching::Smart,
        nucleo::pattern::Normalization::Smart,
        append,
    );
}

/// `Nucleo::tick`: waits up to `timeout_ms` for the workers and takes over
/// what they have found. The result tells whether they are still at work; it
/// depends on how fast they are, so nothing is promised of it.
#[verifier::external_body]
pub(crate) fn tick_matcher(matcher: &mut nucleo::Nucleo<LineContent>, timeout_ms: u64) -> (running:
    bool)
    ensures
        matcher_rows(*final(matcher)) == matcher_rows(*old(matcher)),
        matcher_query(*final(matcher)) == matcher_query(*old(matcher)),
{
    matcher.tick(timeout_ms).running
}

/// `Nucleo::snapshot` and `Snapshot::matched_items` over all matches: the rows
/// that matched at the last tick, best first. Each is one of the rows that
/// the matcher holds.
#[verifier::external_body]
pub(crate) fn matched_rows(matcher: &nucleo::Nucleo<LineContent>) -> (r: Vec<LineContent>)
    ensures
        found_in(r@, matcher_rows(*matcher)),
{
    matcher.snapshot().matched_items(..).map(|item| item.data.clone()).collect()
}

} // verus!

//! Rebuilding a text from a diff.
//!
//! A change sequence walks the current text from left to right with one
//! cursor: a removed run skips as many characters as its value has, an added
//! run contributes its value, an unchanged run copies as many characters as its
//! value has from under the cursor. The value of a removed or unchanged run
//! is not compared with the text it stands for: the sender is trusted.

use vstd::prelude::*;
use crate::file_system::document_manager::DiffChange;
use crate::file_system::document_manager::DocumentError;
use crate::text::char_count;
use crate::text::string_from_chars;

verus! {

/// Where the walk stands: the cursor into the current text, and the text built
/// so far.
pub struct Walk {
    pub cursor: int,
    pub out: Seq<char>,
}

/// One step of the walk, `None` where an unchanged run reaches past the end.
pub open spec fn step(current: Seq<char>, at: Walk, change: DiffChange) -> Option<Walk> {
    let n = change.value@.len() as int;
    if change.removed {
        Some(Walk { cursor: at.cursor + n, out: at.out })
    } else if change.added {
        Some(Walk { cursor: at.cursor, out: at.out + change.value@ })
    } else if at.cursor + n > current.len() {
        None
    } else {
        Some(
            Walk {
                cursor: at.cursor + n,
                out: at.out + current.subrange(at.cursor, at.cursor + n),
            },
        )
    }
}

/// The walk over all of `changes`, `None` where some step fails.
pub open spec fn walk(current: Seq<char>, changes: Seq<DiffChange>) -> Option<Walk>
    decreases changes.len(),
{
    if changes.len() == 0 {
        Some(Walk { cursor: 0, out: Seq::empty() })
    } else {
        match walk(current, changes.drop_last()) {
            None => None,
            Some(at) => step(current, at, changes.last()),
        }
    }
}

/// The text that `changes` make of `current`, `None` where they do not fit it.
pub open spec fn applied(current: Seq<char>, changes: Seq<DiffChange>) -> Option<Seq<char>> {
    match walk(current, changes) {
        None => None,
        Some(at) => Some(at.out),
    }
}

/// Whether every run of `changes` is an unchanged run.
pub open spec fn all_unchanged(changes: Seq<DiffChange>) -> bool {
    forall|i: int| 0 <= i < changes.len() ==> !(#[trigger] changes[i]).added && !changes[i].removed
}

/// The number of characters in the values of `changes`, taken together.
pub open spec fn total_chars(changes: Seq<DiffChange>) -> nat
    decreases changes.len(),
{
    if changes.len() == 0 {
        0
    } else {
        total_chars(changes.drop_last()) + changes.last().value@.len()
    }
}

/// Unchanged runs that do not reach past the end copy a prefix of the text.
pub proof fn lemma_unchanged_runs_copy(current: Seq<char>, changes: Seq<DiffChange>)
    requires
        all_unchanged(changes),
        total_chars(changes) <= current.len(),
    ensures
        walk(current, changes) == Some(
            Walk {
                cursor: total_chars(changes) as int,
                out: current.take(total_chars(changes) as int),
            },
        ),
    decreases changes.len(),
{
    if changes.len() == 0 {
        assert(current.take(0) =~= Seq::<char>::empty());
    } else {
        let init = changes.drop_last();
        assert forall|i: int| 0 <= i < init.len() implies !(#[trigger] init[i]).added
            && !init[i].removed by {
            assert(init[i] == changes[i]);
        }
        lemma_unchanged_runs_copy(current, init);
        let p = total_chars(init) as int;
        let n = changes.last().value@.len() as int;
        assert(current.take(p) + current.subrange(p, p + n) =~= current.take(p + n));
    }
}

/// The identity diff: a change sequence made of unchanged runs only, whose
/// values have together as many characters as the text, yields the text itself.
pub proof fn lemma_identity_diff(current: Seq<char>, changes: Seq<DiffChange>)
    requires
        all_unchanged(changes),
        total_chars(changes) == current.len(),
    ensures
        applied(current, changes) == Some(current),
{
    lemma_unchanged_runs_copy(current, changes);
    assert(current.take(current.len() as int) =~= current);
}

/// Applies `changes` to `current`.
///
/// Fails with `InvalidChange` exactly where an unchanged run reaches past the
/// end of `current`.
pub fn apply_changes(current: &str, changes: &Vec<DiffChange>) -> (r: Result<
    String,
    DocumentError,
>)
    ensures
        match applied(current@, changes@) {
            Some(text) => r is Ok && r->Ok_0@ == text,
            None => r == Err::<String, DocumentError>(DocumentError::InvalidChange),
        },
{
    let chars = crate::text::chars_of(current);
    let mut out: Vec<char> = Vec::new();
    // The cursor, as long as it lies within the text.
    let mut cursor: usize = 0;
    // Whether the cursor has moved past the end of the text.
    let mut past_end = false;
    let mut i: usize = 0;
    assert(changes@.take(0) =~= Seq::<DiffChange>::empty());
    while i < changes.len()
        invariant
            i <= changes.len(),
            chars@ == current@,
            walk(current@, changes@.take(i as int)) matches Some(at) && at.out == out@ && (
            if past_end {
                at.cursor > chars.len()
            } else {
                at.cursor == cursor && cursor <= chars.len()
            }),
        decreases changes.len() - i,
    {
        let change = &changes[i];
        let ghost before = walk(current@, changes@.take(i as int))->Some_0;
        assert(changes@.take(i + 1).drop_last() =~= changes@.take(i as int));
        assert(changes@.take(i + 1).last() == *change);
        let n = char_count(change.value.as_str());
        if change.removed {
            if !past_end {
                if n > chars.len() - cursor {
                    past_end = true;
                } else {
                    cursor = cursor + n;
                }
            }
        } else if change.added {
            let ghost base = out@;
            let added = crate::text::chars_of(change.value.as_str());
            let mut k: usize = 0;
            while k < added.len()
                invariant
                    k <= added.len(),
                    out@ == base + added@.take(k as int),
                decreases added.len() - k,
            {
                out.push(added[k]);
                assert(added@.take(k + 1) =~= added@.take(k as int).push(added@[k as int]));
                k += 1;
            }
            assert(added@.take(added.len() as int) =~= added@);
        } else {
            if past_end || n > chars.len() - cursor {
                proof {
                    lemma_walk_stays_failed(current@, changes@, i as int + 1);
                }
                return Err(DocumentError::InvalidChange);
            }
            let ghost base = out@;
            let mut k: usize = 0;
            while k < n
                invariant
                    k <= n,
                    cursor + n <= chars.len(),
                    out@ == base + chars@.subrange(cursor as int, cursor + k),
                decreases n - k,
            {
                out.push(chars[cursor + k]);
                assert(chars@.subrange(cursor as int, cursor + k + 1) =~= chars@.subrange(
                    cursor as int,
                    cursor + k,
                ).push(chars@[cursor + k]));
                k += 1;
            }
            cursor = cursor + n;
        }
        i += 1;
    }
    assert(changes@.take(changes.len() as int) =~= changes@);
    Ok(string_from_chars(out))
}

/// A walk that has failed on a prefix of the changes fails on all of them.
pub proof fn lemma_walk_stays_failed(current: Seq<char>, changes: Seq<DiffChange>, upto: int)
    requires
        0 <= upto <= changes.len(),
        walk(current, changes.take(upto)) is None,
    ensures
        walk(current, changes) is None,
    decreases changes.len() - upto,
{
    if upto == changes.len() {
        assert(changes.take(upto) =~= changes);
    } else {
        assert(changes.take(upto + 1).drop_last() =~= changes.take(upto));
        lemma_walk_stays_failed(current, changes, upto + 1);
    }
}

} // verus!

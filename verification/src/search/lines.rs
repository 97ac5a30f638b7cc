//! Splitting a text into lines.
//!
//! A line ends with a line feed, or with a carriage return and a line feed;
//! neither belongs to the line. What follows the last line feed is a line of
//! its own unless it is empty.

use vstd::prelude::*;
use crate::text::string_from_chars;

verus! {

/// `line` without the carriage return at its end, if it has one.
pub open spec fn strip_cr(line: Seq<char>) -> Seq<char> {
    if line.len() > 0 && line.last() == '\r' {
        line.drop_last()
    } else {
        line
    }
}

/// One pass over `text`: the lines that a line feed has closed, and the
/// characters of the line still open at the end.
pub open spec fn scan_lines(text: Seq<char>) -> (Seq<Seq<char>>, Seq<char>)
    decreases text.len(),
{
    if text.len() == 0 {
        (Seq::empty(), Seq::empty())
    } else {
        let (done, open) = scan_lines(text.drop_last());
        if text.last() == '\n' {
            (done.push(strip_cr(open)), Seq::empty())
        } else {
            (done, open.push(text.last()))
        }
    }
}

/// The lines of `text`.
pub open spec fn lines_of(text: Seq<char>) -> Seq<Seq<char>> {
    let (done, open) = scan_lines(text);
    if open.len() > 0 {
        done.push(open)
    } else {
        done
    }
}

/// Splits `text` into its lines.
pub fn split_lines(text: &str) -> (r: Vec<String>)
    ensures
        r.deep_view() == lines_of(text@),
{
    let mut done: Vec<String> = Vec::new();
    let mut open: Vec<char> = Vec::new();
    assert(done.deep_view() =~= Seq::<Seq<char>>::empty());
    for c in it: text.chars()
        invariant
            it.seq() == text@,
            scan_lines(text@.take(it.index() as int)) == (done.deep_view(), open@),
    {
        let ghost k = it.index() as int;
        let ghost before = done.deep_view();
        assert(text@.take(k + 1).drop_last() =~= text@.take(k));
        assert(text@.take(k + 1).last() == c);
        if c == '\n' {
            let ghost line = open@;
            if open.len() > 0 && open[open.len() - 1] == '\r' {
                open.pop();
                assert(open@ =~= strip_cr(line));
            }
            let closed = string_from_chars(open);
            done.push(closed);
            assert(done.deep_view() =~= before.push(strip_cr(line)));
            open = Vec::new();
        } else {
            open.push(c);
        }
    }
    assert(text@.take(text@.len() as int) =~= text@);
    if open.len() > 0 {
        let ghost before = done.deep_view();
        let ghost line = open@;
        let last = string_from_chars(open);
        done.push(last);
        assert(done.deep_view() =~= before.push(line));
    }
    done
}

} // verus!

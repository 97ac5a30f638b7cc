//! Telling how the lines of a text end.
//!
//! A line is a piece of the text that a line feed closes, or the piece after the
//! last line feed where that piece is not empty. A line ends with a carriage
//! return where its last character is one.

use vstd::prelude::*;
use crate::file_system::document_manager::LineEnding;

verus! {

/// Whether a line ends with the carriage return at position `i`.
pub open spec fn cr_line_at(text: Seq<char>, i: int) -> bool {
    &&& 0 <= i < text.len()
    &&& text[i] == '\r'
    &&& (i + 1 == text.len() || text[i + 1] == '\n')
}

/// Whether a line without a carriage return at its end ends at position `i`:
/// with the line feed there, or with the last character of the text.
pub open spec fn plain_line_at(text: Seq<char>, i: int) -> bool {
    &&& 0 <= i < text.len()
    &&& if text[i] == '\n' {
        i == 0 || text[i - 1] != '\r'
    } else {
        i + 1 == text.len() && text[i] != '\r'
    }
}

/// Whether some line of `text` ends with a carriage return.
pub open spec fn has_cr_line(text: Seq<char>) -> bool {
    exists|i: int| cr_line_at(text, i)
}

/// Whether some line of `text` ends without a carriage return.
pub open spec fn has_plain_line(text: Seq<char>) -> bool {
    exists|i: int| plain_line_at(text, i)
}

/// The line ending of `text`: `CRLF` where lines end with a carriage return and
/// none without, `Mixed` where both occur, `LF` otherwise.
pub open spec fn line_ending_of(text: Seq<char>) -> LineEnding {
    if has_cr_line(text) && has_plain_line(text) {
        LineEnding::Mixed
    } else if has_cr_line(text) {
        LineEnding::CRLF
    } else {
        LineEnding::LF
    }
}

/// Detects how the lines of `content` end.
pub fn detect_line_ending(content: &str) -> (r: LineEnding)
    ensures
        r == line_ending_of(content@),
{
    let ghost text = content@;
    // A carriage return directly before a line feed was seen.
    let mut found_cr = false;
    // A line feed without a carriage return before it was seen.
    let mut found_plain = false;
    // The character before the current one, and whether there is one.
    let mut prev_is_cr = false;
    let mut last_is_lf = false;
    let mut any = false;
    for c in it: content.chars()
        invariant
            it.seq() == text,
            any == (it.index() > 0),
            any ==> prev_is_cr == (text[it.index() - 1] == '\r'),
            any ==> last_is_lf == (text[it.index() - 1] == '\n'),
            !any ==> !prev_is_cr && !last_is_lf,
            found_cr == (exists|i: int| 0 <= i && i + 1 < it.index() && cr_line_at(text, i)),
            found_plain == (exists|i: int|
                0 <= i < it.index() && text[i] == '\n' && plain_line_at(text, i)),
    {
        let ghost k = it.index() as int;
        let ghost old_cr = found_cr;
        let ghost old_plain = found_plain;
        assert(c == text[k]);
        if c == '\n' {
            if prev_is_cr {
                found_cr = true;
                assert(cr_line_at(text, k - 1));
            } else {
                found_plain = true;
                assert(plain_line_at(text, k));
            }
        }
        proof {
            // Nothing else in the longer prefix can be a witness.
            if !found_cr {
                assert forall|i: int| 0 <= i && i + 1 < k + 1 implies !cr_line_at(text, i) by {
                    if i + 1 < k {
                        assert(!old_cr);
                    } else {
                        assert(i == k - 1);
                    }
                }
            } else if old_cr {
                let w = choose|i: int| 0 <= i && i + 1 < k && cr_line_at(text, i);
                assert(0 <= w && w + 1 < k + 1 && cr_line_at(text, w));
            }
            if !found_plain {
                assert forall|i: int|
                    0 <= i < k + 1 && text[i] == '\n' implies !plain_line_at(text, i) by {
                    if i < k {
                        assert(!old_plain);
                    }
                }
            } else if old_plain {
                let w = choose|i: int| 0 <= i < k && text[i] == '\n' && plain_line_at(text, i);
                assert(0 <= w < k + 1 && text[w] == '\n' && plain_line_at(text, w));
            }
        }
        prev_is_cr = c == '\r';
        last_is_lf = c == '\n';
        any = true;
    }
    let ghost n = text.len() as int;
    let has_cr = found_cr || prev_is_cr;
    let has_plain = found_plain || (any && !last_is_lf && !prev_is_cr);
    proof {
        if has_cr {
            if prev_is_cr {
                assert(cr_line_at(text, n - 1));
            } else {
                let w = choose|i: int| 0 <= i && i + 1 < n && cr_line_at(text, i);
                assert(cr_line_at(text, w));
            }
        } else {
            assert forall|i: int| !cr_line_at(text, i) by {
                if cr_line_at(text, i) {
                    if i + 1 < n {
                        assert(0 <= i && i + 1 < n && cr_line_at(text, i));
                    }
                }
            }
        }
        if has_plain {
            if found_plain {
                let w = choose|i: int| 0 <= i < n && text[i] == '\n' && plain_line_at(text, i);
                assert(plain_line_at(text, w));
            } else {
                assert(plain_line_at(text, n - 1));
            }
        } else {
            assert forall|i: int| !plain_line_at(text, i) by {
                if plain_line_at(text, i) {
                    if text[i] == '\n' {
                        assert(0 <= i < n && text[i] == '\n' && plain_line_at(text, i));
                    }
                }
            }
        }
    }
    if has_cr && has_plain {
        LineEnding::Mixed
    } else if has_cr {
        LineEnding::CRLF
    } else {
        LineEnding::LF
    }
}

} // verus!

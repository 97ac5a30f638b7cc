//! The framing of messages to and from a language server.
//!
//! A frame is a block of header lines, a blank line, and a payload of exactly
//! as many bytes as the `Content-Length` header says.

use vstd::prelude::*;
use vstd::string::StringSliceAdditionalSpecFns;
use vstd::utf8::encode_utf8;

verus! {

/// The text that opens the header that carries the payload's length.
pub open spec fn length_prefix() -> Seq<u8> {
    encode_utf8("Content-Length: "@)
}

/// The bytes that end the header block: an empty line after the header.
pub open spec fn header_end() -> Seq<u8> {
    seq![13u8, 10u8, 13u8, 10u8]
}

/// The decimal digits of `n`, as ASCII bytes.
pub open spec fn decimal(n: nat) -> Seq<u8>
    decreases n,
{
    if n < 10 {
        seq![(48 + n) as u8]
    } else {
        decimal(n / 10).push((48 + n % 10) as u8)
    }
}

/// The frame that carries `payload`.
pub open spec fn frame_of(payload: Seq<u8>) -> Seq<u8> {
    length_prefix() + decimal(payload.len()) + header_end() + payload
}

/// Appends the decimal digits of `n` to `out`.
pub fn push_decimal(out: &mut Vec<u8>, n: u64)
    ensures
        final(out)@ == old(out)@ + decimal(n as nat),
    decreases n,
{
    if n < 10 {
        out.push((48 + n) as u8);
        assert(out@ =~= old(out)@ + decimal(n as nat));
    } else {
        push_decimal(out, n / 10);
        out.push((48 + n % 10) as u8);
        assert(out@ =~= old(out)@ + decimal(n as nat));
    }
}

/// Appends `bytes` to `out`.
pub fn push_bytes(out: &mut Vec<u8>, bytes: &[u8])
    ensures
        final(out)@ == old(out)@ + bytes@,
{
    let mut i: usize = 0;
    while i < bytes.len()
        invariant
            i <= bytes.len(),
            out@ == old(out)@ + bytes@.take(i as int),
        decreases bytes.len() - i,
    {
        out.push(bytes[i]);
        assert(bytes@.take(i + 1) =~= bytes@.take(i as int).push(bytes@[i as int]));
        i += 1;
    }
    assert(bytes@.take(bytes.len() as int) =~= bytes@);
}

/// Frames `payload` for the wire.
pub fn encode_frame(payload: &[u8]) -> (r: Vec<u8>)
    ensures
        r@ == frame_of(payload@),
{
    let mut out: Vec<u8> = Vec::new();
    push_bytes(&mut out, "Content-Length: ".as_bytes());
    push_decimal(&mut out, payload.len() as u64);
    out.push(13);
    out.push(10);
    out.push(13);
    out.push(10);
    push_bytes(&mut out, payload);
    assert(out@ =~= frame_of(payload@));
    out
}

/// Whether `b` is ASCII white space.
pub open spec fn is_space(b: u8) -> bool {
    b == 32 || (9 <= b <= 13)
}

/// `line` without the white space at its start.
pub open spec fn trim_start(line: Seq<u8>) -> Seq<u8>
    decreases line.len(),
{
    if line.len() > 0 && is_space(line[0]) {
        trim_start(line.drop_first())
    } else {
        line
    }
}

/// `line` without the white space at its end.
pub open spec fn trim_end(line: Seq<u8>) -> Seq<u8>
    decreases line.len(),
{
    if line.len() > 0 && is_space(line.last()) {
        trim_end(line.drop_last())
    } else {
        line
    }
}

/// `line` without the white space around it.
pub open spec fn trimmed(line: Seq<u8>) -> Seq<u8> {
    trim_end(trim_start(line))
}

/// The number that the decimal digits `digits` spell: `None` where there is no
/// digit or something else than a digit.
pub open spec fn parse_decimal(digits: Seq<u8>) -> Option<nat>
    decreases digits.len(),
{
    if digits.len() == 0 {
        None
    } else if !(48 <= digits.last() <= 57) {
        None
    } else if digits.len() == 1 {
        Some((digits.last() - 48) as nat)
    } else {
        match parse_decimal(digits.drop_last()) {
            None => None,
            Some(v) => Some(v * 10 + (digits.last() - 48) as nat),
        }
    }
}

/// What is wrong with a frame.
#[derive(Clone, Copy, Debug, PartialEq, Eq, Structural)]
pub enum FrameError {
    /// The `Content-Length` header does not hold a length that fits.
    BadContentLength,
    /// The header block ended without a `Content-Length` header.
    MissingContentLength,
}

/// How far the header block has been read.
pub enum HeaderScan {
    /// The blank line has not come yet: the line that is being read starts at
    /// `line_start`, and `content_length` is the length seen so far.
    Reading { line_start: int, content_length: Option<nat> },
    /// A header was malformed.
    Invalid,
    /// The blank line has come: the payload starts at `body_start`.
    Done { content_length: Option<nat>, body_start: int },
}

/// What a line of the header block does to the scan.
pub open spec fn after_line(
    line: Seq<u8>,
    content_length: Option<nat>,
    next_start: int,
) -> HeaderScan {
    let text = trimmed(line);
    if text.len() == 0 {
        HeaderScan::Done { content_length, body_start: next_start }
    } else if length_prefix().is_prefix_of(text) {
        match parse_decimal(text.skip(length_prefix().len() as int)) {
            Some(n) => if n <= usize::MAX {
                HeaderScan::Reading { line_start: next_start, content_length: Some(n) }
            } else {
                HeaderScan::Invalid
            },
            None => HeaderScan::Invalid,
        }
    } else {
        HeaderScan::Reading { line_start: next_start, content_length }
    }
}

/// The scan of the header block over all of `buf`, byte by byte: a line feed
/// ends a line, and the first blank line ends the block.
pub open spec fn scan_headers(buf: Seq<u8>) -> HeaderScan
    decreases buf.len(),
{
    if buf.len() == 0 {
        HeaderScan::Reading { line_start: 0, content_length: None }
    } else {
        match scan_headers(buf.drop_last()) {
            HeaderScan::Reading { line_start, content_length } => if buf.last() == 10 {
                after_line(
                    buf.subrange(line_start, buf.len() - 1),
                    content_length,
                    buf.len() as int,
                )
            } else {
                HeaderScan::Reading { line_start, content_length }
            },
            other => other,
        }
    }
}

/// What the start of a buffer holds.
pub enum FrameView {
    /// More bytes are needed.
    Incomplete,
    /// The frame is malformed.
    Invalid(FrameError),
    /// A whole frame: its payload, and the bytes that the frame takes up.
    Complete { payload: Seq<u8>, consumed: int },
}

/// The frame at the start of `buf`, where the scan of the header block came to
/// `scan`.
pub open spec fn frame_after(buf: Seq<u8>, scan: HeaderScan) -> FrameView {
    match scan {
        HeaderScan::Reading { .. } => FrameView::Incomplete,
        HeaderScan::Invalid => FrameView::Invalid(FrameError::BadContentLength),
        HeaderScan::Done { content_length: None, .. } => FrameView::Invalid(
            FrameError::MissingContentLength,
        ),
        HeaderScan::Done { content_length: Some(n), body_start } => if body_start + n
            <= buf.len() {
            FrameView::Complete {
                payload: buf.subrange(body_start, body_start + n),
                consumed: body_start + n,
            }
        } else {
            FrameView::Incomplete
        },
    }
}

/// The frame at the start of `buf`.
pub open spec fn first_frame(buf: Seq<u8>) -> FrameView {
    frame_after(buf, scan_headers(buf))
}

/// What `parse_frame` found at the start of a buffer.
#[derive(Clone, Debug, PartialEq, Eq)]
pub enum Frame {
    /// More bytes are needed.
    Incomplete,
    /// The frame is malformed.
    Invalid(FrameError),
    /// A whole frame: its payload, and the bytes that the frame takes up.
    Complete { payload: Vec<u8>, consumed: usize },
}

impl View for Frame {
    type V = FrameView;

    open spec fn view(&self) -> FrameView {
        match *self {
            Frame::Incomplete => FrameView::Incomplete,
            Frame::Invalid(e) => FrameView::Invalid(e),
            Frame::Complete { payload, consumed } => FrameView::Complete {
                payload: payload@,
                consumed: consumed as int,
            },
        }
    }
}

/// A scan that has ended on a prefix of the buffer has ended on all of it.
pub proof fn lemma_scan_ended(buf: Seq<u8>, upto: int)
    requires
        0 <= upto <= buf.len(),
        !(scan_headers(buf.take(upto)) is Reading),
    ensures
        scan_headers(buf) == scan_headers(buf.take(upto)),
    decreases buf.len() - upto,
{
    if upto == buf.len() {
        assert(buf.take(upto) =~= buf);
    } else {
        assert(buf.take(upto + 1).drop_last() =~= buf.take(upto));
        lemma_scan_ended(buf, upto + 1);
    }
}

/// Where the text of `line[from..to]` starts once the white space before it
/// is skipped.
fn skip_spaces(buf: &[u8], from: usize, to: usize) -> (r: usize)
    requires
        from <= to <= buf.len(),
    ensures
        from <= r <= to,
        trim_start(buf@.subrange(from as int, to as int)) == buf@.subrange(r as int, to as int),
    decreases to - from,
{
    if from < to && is_space_byte(buf[from]) {
        assert(buf@.subrange(from as int, to as int).drop_first() =~= buf@.subrange(
            from + 1,
            to as int,
        ));
        skip_spaces(buf, from + 1, to)
    } else {
        from
    }
}

/// Where the text of `line[from..to]` ends once the white space after it is
/// dropped.
fn drop_spaces(buf: &[u8], from: usize, to: usize) -> (r: usize)
    requires
        from <= to <= buf.len(),
    ensures
        from <= r <= to,
        trim_end(buf@.subrange(from as int, to as int)) == buf@.subrange(from as int, r as int),
    decreases to - from,
{
    if from < to && is_space_byte(buf[to - 1]) {
        assert(buf@.subrange(from as int, to as int).drop_last() =~= buf@.subrange(
            from as int,
            to - 1,
        ));
        drop_spaces(buf, from, to - 1)
    } else {
        to
    }
}

/// Whether `b` is ASCII white space.
pub fn is_space_byte(b: u8) -> (r: bool)
    ensures
        r == is_space(b),
{
    b == 32 || (9 <= b && b <= 13)
}

/// Whether `buf[from..to]` starts with `prefix`.
fn range_starts_with(buf: &[u8], from: usize, to: usize, prefix: &[u8]) -> (r: bool)
    requires
        from <= to <= buf.len(),
    ensures
        r == prefix@.is_prefix_of(buf@.subrange(from as int, to as int)),
{
    if prefix.len() > to - from {
        return false;
    }
    let ghost range = buf@.subrange(from as int, to as int);
    let mut i: usize = 0;
    while i < prefix.len()
        invariant
            i <= prefix.len() <= to - from,
            from <= to <= buf.len(),
            range == buf@.subrange(from as int, to as int),
            forall|j: int| 0 <= j < i ==> prefix@[j] == range[j],
        decreases prefix.len() - i,
    {
        if prefix[i] != buf[from + i] {
            assert(range[i as int] == buf@[from + i]);
            assert(prefix@ != range.subrange(0, prefix@.len() as int)) by {
                assert(range.subrange(0, prefix@.len() as int)[i as int] == range[i as int]);
            }
            return false;
        }
        assert(range[i as int] == buf@[from + i]);
        i += 1;
    }
    assert(prefix@ =~= range.subrange(0, prefix@.len() as int));
    true
}

/// The length that the digits `buf[from..to]` spell, where they spell one that
/// fits.
fn parse_length(buf: &[u8], from: usize, to: usize) -> (r: Option<usize>)
    requires
        from <= to <= buf.len(),
    ensures
        match parse_decimal(buf@.subrange(from as int, to as int)) {
            Some(n) => if n <= usize::MAX {
                r == Some(n as usize)
            } else {
                r is None
            },
            None => r is None,
        },
{
    if from == to {
        return None;
    }
    let mut value: usize = 0;
    let mut i: usize = from;
    assert(buf@.subrange(from as int, from as int) =~= Seq::<u8>::empty());
    while i < to
        invariant
            from <= i <= to <= buf.len(),
            from < to,
            i > from ==> parse_decimal(buf@.subrange(from as int, i as int)) == Some(value as nat),
            i == from ==> value == 0,
        decreases to - i,
    {
        let b = buf[i];
        let ghost sofar = buf@.subrange(from as int, i as int);
        let ghost next = buf@.subrange(from as int, i + 1);
        assert(next.drop_last() =~= sofar);
        assert(next.last() == b);
        if b < 48 || b > 57 {
            proof {
                lemma_parse_decimal_fails(buf@.subrange(from as int, to as int), i - from + 1);
                assert(buf@.subrange(from as int, to as int).take(i - from + 1) =~= next);
            }
            return None;
        }
        let d = (b - 48) as usize;
        if value > (usize::MAX - d) / 10 {
            proof {
                assert(value * 10 + d > usize::MAX) by (nonlinear_arith)
                    requires
                        value > (usize::MAX - d) / 10,
                        d <= 9,
                ;
                assert(parse_decimal(next) == Some((value * 10 + d) as nat));
                lemma_parse_decimal_grows(buf@.subrange(from as int, to as int), i - from + 1);
                assert(buf@.subrange(from as int, to as int).take(i - from + 1) =~= next);
            }
            return None;
        }
        assert(value * 10 + d <= usize::MAX) by (nonlinear_arith)
            requires
                value <= (usize::MAX - d) / 10,
                d <= 9,
        ;
        value = value * 10 + d;
        i += 1;
    }
    assert(buf@.subrange(from as int, to as int) =~= buf@.subrange(from as int, i as int));
    Some(value)
}

/// Digits that fail to spell a number on a prefix fail on the whole.
pub proof fn lemma_parse_decimal_fails(digits: Seq<u8>, upto: int)
    requires
        1 <= upto <= digits.len(),
        parse_decimal(digits.take(upto)) is None,
    ensures
        parse_decimal(digits) is None,
    decreases digits.len() - upto,
{
    if upto == digits.len() {
        assert(digits.take(upto) =~= digits);
    } else {
        assert(digits.take(upto + 1).drop_last() =~= digits.take(upto));
        lemma_parse_decimal_fails(digits, upto + 1);
    }
}

/// The number that digits spell is no smaller than the number that a prefix
/// of them spells.
pub proof fn lemma_parse_decimal_grows(digits: Seq<u8>, upto: int)
    requires
        1 <= upto <= digits.len(),
    ensures
        parse_decimal(digits) matches Some(n) ==> parse_decimal(digits.take(upto)) matches Some(m)
            && m <= n,
    decreases digits.len() - upto,
{
    if upto == digits.len() {
        assert(digits.take(upto) =~= digits);
    } else {
        assert(digits.take(upto + 1).drop_last() =~= digits.take(upto));
        lemma_parse_decimal_grows(digits, upto + 1);
        if parse_decimal(digits) is Some {
            let m1 = parse_decimal(digits.take(upto + 1))->Some_0;
            let m0 = parse_decimal(digits.take(upto))->Some_0;
            assert(m0 <= m1) by (nonlinear_arith)
                requires
                    m1 >= m0 * 10,
            ;
        }
    }
}

/// The bytes of the text that opens the length header: sixteen ASCII
/// characters, none of them white space but the last, none a line feed.
pub proof fn lemma_length_prefix_bytes()
    ensures
        length_prefix().len() == 16,
        length_prefix()[0] == 67,
        length_prefix()[15] == 32,
        forall|i: int| 0 <= i < 16 ==> #[trigger] length_prefix()[i] != 10,
{
    reveal_strlit("Content-Length: ");
    let chars = "Content-Length: "@;
    assert(vstd::utf8::is_ascii_chars(chars));
    vstd::utf8::is_ascii_chars_encode_utf8(chars);
    assert forall|i: int| 0 <= i < 16 implies #[trigger] length_prefix()[i] != 10 by {
        assert(chars[i] as u8 == encode_utf8(chars)[i]);
    }
    assert(chars[0] as u8 == encode_utf8(chars)[0]);
    assert(chars[15] as u8 == encode_utf8(chars)[15]);
}

/// Decimal digits are digits, and there is at least one.
pub proof fn lemma_decimal_digits(n: nat)
    ensures
        decimal(n).len() >= 1,
        forall|i: int| 0 <= i < decimal(n).len() ==> 48 <= #[trigger] decimal(n)[i] <= 57,
    decreases n,
{
    if n >= 10 {
        lemma_decimal_digits(n / 10);
    }
}

/// The digits of a number spell that number.
pub proof fn lemma_parse_decimal_of_decimal(n: nat)
    ensures
        parse_decimal(decimal(n)) == Some(n),
    decreases n,
{
    if n >= 10 {
        lemma_parse_decimal_of_decimal(n / 10);
        lemma_decimal_digits(n / 10);
        let digits = decimal(n);
        assert(digits.drop_last() =~= decimal(n / 10));
        assert(digits.last() == (48 + n % 10) as u8);
    }
}

/// A stretch without a line feed leaves the scan where it was.
pub proof fn lemma_scan_without_line_feed(buf: Seq<u8>, from: int, to: int)
    requires
        0 <= from <= to <= buf.len(),
        scan_headers(buf.take(from)) is Reading,
        forall|i: int| from <= i < to ==> buf[i] != 10,
    ensures
        scan_headers(buf.take(to)) == scan_headers(buf.take(from)),
    decreases to - from,
{
    if from < to {
        lemma_scan_without_line_feed(buf, from, to - 1);
        assert(buf.take(to).drop_last() =~= buf.take(to - 1));
    }
}

/// Text that neither starts nor ends with white space is its own trimmed form;
/// a carriage return at its end is trimmed away.
pub proof fn lemma_trimmed_line(text: Seq<u8>)
    requires
        text.len() > 0,
        !is_space(text[0]),
        !is_space(text.last()),
    ensures
        trimmed(text) == text,
        trimmed(text.push(13)) == text,
{
    assert(text.push(13).drop_last() =~= text);
    assert(trim_start(text.push(13)) == text.push(13));
    assert(trim_end(text.push(13)) == trim_end(text));
}

/// Reading undoes framing: at the start of a buffer that holds the frame of
/// `payload`, whatever follows it, the reader finds exactly `payload` and
/// takes up exactly the frame.
pub proof fn lemma_frame_round_trip(payload: Seq<u8>, rest: Seq<u8>)
    requires
        payload.len() <= usize::MAX,
    ensures
        first_frame(frame_of(payload) + rest) == (FrameView::Complete {
            payload,
            consumed: frame_of(payload).len() as int,
        }),
{
    let n = payload.len();
    let digits = decimal(n);
    let header = length_prefix() + digits;
    let buf = frame_of(payload) + rest;
    lemma_length_prefix_bytes();
    lemma_decimal_digits(n);
    lemma_parse_decimal_of_decimal(n);
    let h = header.len() as int;
    assert(frame_of(payload) =~= header + header_end() + payload);
    assert forall|i: int| 0 <= i < h implies buf[i] == header[i] by {}
    assert(buf[h] == 13 && buf[h + 1] == 10 && buf[h + 2] == 13 && buf[h + 3] == 10);
    assert forall|i: int| 0 <= i < h + 1 implies buf[i] != 10 by {
        if i < 16 {
            assert(buf[i] == length_prefix()[i]);
        } else if i < h {
            assert(buf[i] == digits[i - 16]);
        }
    }
    // The length header.
    assert(buf.take(0) =~= Seq::<u8>::empty());
    lemma_scan_without_line_feed(buf, 0, h + 1);
    assert(buf.take(h + 2).drop_last() =~= buf.take(h + 1));
    let line = buf.take(h + 2).subrange(0, h + 1);
    assert(line =~= header.push(13));
    assert(header[0] == length_prefix()[0]);
    assert(header.last() == digits.last());
    lemma_trimmed_line(header);
    assert(length_prefix() =~= header.subrange(0, 16));
    assert(header.skip(16) =~= digits);
    assert(scan_headers(buf.take(h + 2)) == (HeaderScan::Reading {
        line_start: h + 2,
        content_length: Some(n),
    }));
    // The blank line.
    lemma_scan_without_line_feed(buf, h + 2, h + 3);
    assert(buf.take(h + 4).drop_last() =~= buf.take(h + 3));
    let blank = buf.take(h + 4).subrange(h + 2, h + 3);
    assert(blank =~= seq![13u8]);
    assert(trim_start(blank) =~= Seq::<u8>::empty()) by {
        assert(blank.drop_first() =~= Seq::<u8>::empty());
        assert(trim_start(blank.drop_first()) =~= Seq::<u8>::empty());
    }
    assert(trimmed(blank) =~= Seq::<u8>::empty());
    assert(scan_headers(buf.take(h + 4)) == (HeaderScan::Done {
        content_length: Some(n),
        body_start: h + 4,
    }));
    lemma_scan_ended(buf, h + 4);
    assert(buf.subrange(h + 4, h + 4 + n) =~= payload);
}

/// Reads the frame at the start of `buf`.
///
/// Header lines end with a line feed and are taken without the white space
/// around them. The header `Content-Length: ` gives the payload's length in
/// decimal digits; other headers are skipped. The first blank line ends the
/// header block.
pub fn parse_frame(buf: &[u8]) -> (r: Frame)
    ensures
        r@ == first_frame(buf@),
{
    let mut line_start: usize = 0;
    let mut content_length: Option<usize> = None;
    let mut i: usize = 0;
    assert(buf@.take(0) =~= Seq::<u8>::empty());
    while i < buf.len()
        invariant
            i <= buf.len(),
            line_start <= i,
            scan_headers(buf@.take(i as int)) == (HeaderScan::Reading {
                line_start: line_start as int,
                content_length: match content_length {
                    Some(n) => Some(n as nat),
                    None => None,
                },
            }),
        decreases buf.len() - i,
    {
        let ghost prefix = buf@.take(i + 1);
        assert(prefix.drop_last() =~= buf@.take(i as int));
        assert(prefix.last() == buf@[i as int]);
        if buf[i] == 10 {
            let ghost line = prefix.subrange(line_start as int, i as int);
            assert(line =~= buf@.subrange(line_start as int, i as int));
            let start = skip_spaces(buf, line_start, i);
            let end = drop_spaces(buf, start, i);
            assert(trimmed(line) == buf@.subrange(start as int, end as int));
            if start == end {
                proof {
                    lemma_scan_ended(buf@, i + 1);
                }
                let body_start = i + 1;
                return match content_length {
                    None => Frame::Invalid(FrameError::MissingContentLength),
                    Some(n) => {
                        if n <= buf.len() - body_start {
                            let mut payload: Vec<u8> = Vec::new();
                            push_bytes(
                                &mut payload,
                                vstd::slice::slice_subrange(buf, body_start, body_start + n),
                            );
                            assert(payload@ =~= buf@.subrange(
                                body_start as int,
                                body_start + n,
                            ));
                            Frame::Complete { payload, consumed: body_start + n }
                        } else {
                            Frame::Incomplete
                        }
                    },
                };
            }
            let marker = "Content-Length: ".as_bytes();
            if range_starts_with(buf, start, end, marker) {
                assert(buf@.subrange(start as int, end as int).skip(marker@.len() as int)
                    =~= buf@.subrange(start + marker@.len(), end as int));
                match parse_length(buf, start + marker.len(), end) {
                    Some(n) => {
                        content_length = Some(n);
                    },
                    None => {
                        proof {
                            lemma_scan_ended(buf@, i + 1);
                        }
                        return Frame::Invalid(FrameError::BadContentLength);
                    },
                }
            }
            line_start = i + 1;
        }
        i += 1;
    }
    assert(buf@.take(buf.len() as int) =~= buf@);
    Frame::Incomplete
}

} // verus!

//! From bytes to text: telling text from binary data, detecting the encoding
//! and decoding with it.

use vstd::prelude::*;
use crate::file_system::document_manager::FileEncoding;
use crate::file_system::document_manager::FileType;

verus! {

/// How many bytes at the start of a file are looked at to tell its type.
pub const FILE_TYPE_PROBE_LEN: usize = 512;

/// The confidence reported for a detected encoding, in percent. The detector
/// does not tell how sure it is.
pub const DETECTION_CONFIDENCE_PERCENT: u8 = 90;

/// The longest input that is handed to a decoder: 1 GiB. Beyond it a decoder's
/// output buffer may not fit the address space.
pub const MAX_DECODE_LEN: usize = 0x4000_0000;

/// The bytes that the type of a file is told from.
pub open spec fn probe_of(data: Seq<u8>) -> Seq<u8> {
    if data.len() <= FILE_TYPE_PROBE_LEN {
        data
    } else {
        data.take(FILE_TYPE_PROBE_LEN as int)
    }
}

/// Whether `bytes` holds a zero byte.
pub open spec fn has_nul(bytes: Seq<u8>) -> bool {
    exists|i: int| 0 <= i < bytes.len() && bytes[i] == 0
}

/// The type of a file that starts with `data`: binary where the probe holds a
/// zero byte, else a symbolic link where the path is one, else text.
pub open spec fn file_type_of(data: Seq<u8>, is_symlink: bool) -> FileType {
    if has_nul(probe_of(data)) {
        FileType::Binary
    } else if is_symlink {
        FileType::SymLink
    } else {
        FileType::Text
    }
}

/// Tells the type of a file from the bytes it starts with and from whether its
/// path is a symbolic link.
pub fn detect_file_type(data: &[u8], is_symlink: bool) -> (r: FileType)
    ensures
        r == file_type_of(data@, is_symlink),
{
    let n = if data.len() <= FILE_TYPE_PROBE_LEN {
        data.len()
    } else {
        FILE_TYPE_PROBE_LEN
    };
    let mut i: usize = 0;
    while i < n
        invariant
            i <= n <= data.len(),
            n == probe_of(data@).len(),
            forall|j: int| 0 <= j < i ==> data@[j] != 0,
        decreases n - i,
    {
        if data[i] == 0 {
            assert(probe_of(data@)[i as int] == 0);
            return FileType::Binary;
        }
        i += 1;
    }
    assert(!has_nul(probe_of(data@))) by {
        assert forall|j: int| 0 <= j < probe_of(data@).len() implies probe_of(data@)[j] != 0 by {
            assert(probe_of(data@)[j] == data@[j]);
        }
    }
    if is_symlink {
        FileType::SymLink
    } else {
        FileType::Text
    }
}

/// The name of the encoding that the detector guesses for `data`.
pub uninterp spec fn detected_label(data: Seq<u8>) -> Seq<char>;

/// What decoding `data` with the encoding that `label` names gives: the text,
/// and whether malformed sequences were replaced. `None` where no encoding
/// has that label.
pub uninterp spec fn label_decoding(label: Seq<char>, data: Seq<u8>) -> Option<(Seq<char>, bool)>;

/// What decoding `data` as UTF-8 gives: the text, and whether malformed
/// sequences were replaced.
pub uninterp spec fn utf8_decoding(data: Seq<u8>) -> (Seq<char>, bool);

/// `chardetng::EncodingDetector`: a fresh detector is fed `data` as the whole
/// stream and asked for its guess, with no domain hint and UTF-8 allowed. The
/// result is the name of the guessed encoding. The guess depends on the bytes
/// alone.
#[verifier::external_body]
fn guess_encoding_name(data: &[u8]) -> (r: String)
    ensures
        r@ == detected_label(data@),
{
    let mut detector = chardetng::EncodingDetector::new();
    detector.feed(data, true);
    detector.guess(None, true).name().to_string()
}

/// `encoding_rs::Encoding::for_label` followed by `Encoding::decode`: the
/// encoding that `label` names decodes `data`, sniffing a byte order mark and
/// replacing malformed sequences. `None` where no encoding has that label.
/// The input is bounded because `decode` panics where the size of its output
/// buffer overflows.
#[verifier::external_body]
fn decode_with_label(label: &str, data: &[u8]) -> (r: Option<(String, bool)>)
    requires
        data@.len() <= MAX_DECODE_LEN,
    ensures
        match r {
            Some((text, had_errors)) => label_decoding(label@, data@) == Some((text@, had_errors)),
            None => label_decoding(label@, data@) is None,
        },
{
    match encoding_rs::Encoding::for_label(label.as_bytes()) {
        Some(encoding) => {
            let (text, _, had_errors) = encoding.decode(data);
            Some((text.into_owned(), had_errors))
        },
        None => None,
    }
}

/// `encoding_rs::UTF_8.decode`: `data` decoded as UTF-8, sniffing a byte order
/// mark and replacing malformed sequences. The input is bounded as for
/// `decode_with_label`.
#[verifier::external_body]
fn decode_as_utf8(data: &[u8]) -> (r: (String, bool))
    requires
        data@.len() <= MAX_DECODE_LEN,
    ensures
        (r.0@, r.1) == utf8_decoding(data@),
{
    let (text, _, had_errors) = encoding_rs::UTF_8.decode(data);
    (text.into_owned(), had_errors)
}

/// The encoding detected for `data`.
pub open spec fn encoding_of(data: Seq<u8>) -> (Seq<char>, u8) {
    (detected_label(data), DETECTION_CONFIDENCE_PERCENT)
}

/// Detects the encoding of `data`.
pub fn detect_encoding(data: &[u8]) -> (r: FileEncoding)
    ensures
        (r.encoding@, r.confidence_percent) == encoding_of(data@),
{
    FileEncoding {
        encoding: guess_encoding_name(data),
        confidence_percent: DETECTION_CONFIDENCE_PERCENT,
    }
}

/// The text of `data` under the encoding that `label` names, UTF-8 where the
/// label is unknown, and whether malformed sequences were replaced.
pub open spec fn decoding(label: Seq<char>, data: Seq<u8>) -> (Seq<char>, bool) {
    match label_decoding(label, data) {
        Some(decoded) => decoded,
        None => utf8_decoding(data),
    }
}

/// Decodes `data` with the encoding that `label` names, falling back to UTF-8
/// on an unknown label. Replaced sequences are reported, not refused.
pub fn decode_content(label: &str, data: &[u8]) -> (r: (String, bool))
    requires
        data@.len() <= MAX_DECODE_LEN,
    ensures
        (r.0@, r.1) == decoding(label@, data@),
{
    match decode_with_label(label, data) {
        Some(decoded) => decoded,
        None => decode_as_utf8(data),
    }
}

} // verus!

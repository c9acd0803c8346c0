//! Conversions between bytes and text that the parsers rely on.

use vstd::prelude::*;
use vstd::utf8::{decode_utf8, valid_utf8};

verus! {

/// The text that `String::from_utf8_lossy` makes of `bytes`.
pub uninterp spec fn lossy_utf8(bytes: Seq<u8>) -> Seq<char>;

/// Calls `String::from_utf8_lossy`: the result is named `lossy_utf8` of the
/// bytes; for valid UTF-8 it is the decoded text (invalid sequences, which
/// become U+FFFD, are not described further).
#[verifier::external_body]
pub fn utf8_lossy_string(bytes: &[u8]) -> (s: String)
    ensures
        s@ == lossy_utf8(bytes@),
        valid_utf8(bytes@) ==> s@ == decode_utf8(bytes@),
{
    String::from_utf8_lossy(bytes).into_owned()
}


/// The characters of `s`, in order.
pub fn chars_of(s: &str) -> (v: Vec<char>)
    ensures
        v@ == s@,
{
    broadcast use vstd::string::group_string_axioms;
    let mut v: Vec<char> = Vec::new();
    for c in it: s.chars()
        invariant
            v@ == it.seq().take(it.index() as int),
    {
        v.push(c);
    }
    v
}


/// Collects characters into a `String` (`FromIterator<char>` for `String`):
/// the string holds exactly those characters.
#[verifier::external_body]
pub fn string_from_chars(chars: &[char]) -> (s: String)
    ensures
        s@ == chars@,
{
    chars.iter().collect()
}

/// The text that `std::str::from_utf8` accepts: `Some` exactly for valid
/// UTF-8, holding the decoded characters.
#[verifier::external_body]
pub fn utf8_text(bytes: &[u8]) -> (res: Option<String>)
    ensures
        res is Some <==> valid_utf8(bytes@),
        res matches Some(s) ==> s@ == decode_utf8(bytes@),
{
    match std::str::from_utf8(bytes) {
        Ok(text) => Some(text.to_owned()),
        Err(_) => None,
    }
}

/// The text that `encoding_rs::SHIFT_JIS.decode` makes of `bytes` (with its
/// byte-order-mark sniffing and replacement of malformed sequences).
pub uninterp spec fn shift_jis_text(bytes: Seq<u8>) -> Seq<char>;

/// Calls `encoding_rs::SHIFT_JIS.decode`; the decoded text is named
/// `shift_jis_text` of the bytes and nothing more is claimed of it.
#[verifier::external_body]
pub fn decode_shift_jis(bytes: &[u8]) -> (s: String)
    ensures
        s@ == shift_jis_text(bytes@),
{
    let (text, _, _) = encoding_rs::SHIFT_JIS.decode(bytes);
    text.into_owned()
}

/// Every character is ASCII.
pub open spec fn ascii_text(t: Seq<char>) -> bool {
    forall|i: int| 0 <= i < t.len() ==> ((#[trigger] t[i]) as u32) < 0x80
}

/// The bytes of an ASCII text.
pub open spec fn ascii_bytes(t: Seq<char>) -> Seq<u8> {
    t.map_values(|c: char| (c as u32) as u8)
}

/// The bytes `encoding_rs::SHIFT_JIS.encode` writes for `text`, or `None`
/// when it meets a character that Shift-JIS cannot write.
pub uninterp spec fn shift_jis_encoding(text: Seq<char>) -> Option<Seq<u8>>;

/// Calls `encoding_rs::SHIFT_JIS.encode`: the bytes are named
/// `shift_jis_encoding` of the text, `None` when the encoder reports an
/// unmappable character. An ASCII text is written as its own bytes, which
/// the encoder documents for ASCII-compatible encodings; nothing more is
/// claimed of the bytes.
#[verifier::external_body]
pub fn encode_shift_jis(text: &str) -> (r: Option<Vec<u8>>)
    ensures
        r is Some <==> shift_jis_encoding(text@) is Some,
        r matches Some(b) ==> shift_jis_encoding(text@) == Some(b@),
        r matches Some(b) ==> (ascii_text(text@) ==> b@ == ascii_bytes(text@)),
        r is None ==> !ascii_text(text@),
{
    let (bytes, _, had_errors) = encoding_rs::SHIFT_JIS.encode(text);
    if had_errors {
        None
    } else {
        Some(bytes.into_owned())
    }
}

/// The Unicode `White_Space` property, which `char::is_whitespace` tests.
pub open spec fn is_white_space(c: char) -> bool {
    ||| ('\u{9}' <= c <= '\u{d}')
    ||| c == ' '
    ||| c == '\u{85}'
    ||| c == '\u{a0}'
    ||| c == '\u{1680}'
    ||| ('\u{2000}' <= c <= '\u{200a}')
    ||| c == '\u{2028}'
    ||| c == '\u{2029}'
    ||| c == '\u{202f}'
    ||| c == '\u{205f}'
    ||| c == '\u{3000}'
}

pub fn char_is_white_space(c: char) -> (res: bool)
    ensures
        res == is_white_space(c),
{
    ('\u{9}' <= c && c <= '\u{d}') || c == ' ' || c == '\u{85}' || c == '\u{a0}' || c == '\u{1680}'
        || ('\u{2000}' <= c && c <= '\u{200a}') || c == '\u{2028}' || c == '\u{2029}' || c
        == '\u{202f}' || c == '\u{205f}' || c == '\u{3000}'
}

/// Number of leading characters of `s` that satisfy white space.
pub open spec fn leading_white(s: Seq<char>) -> nat
    decreases s.len(),
{
    if s.len() > 0 && is_white_space(s[0]) {
        1 + leading_white(s.drop_first())
    } else {
        0
    }
}

/// Number of trailing white-space characters of `s`.
pub open spec fn trailing_white(s: Seq<char>) -> nat
    decreases s.len(),
{
    if s.len() > 0 && is_white_space(s.last()) {
        1 + trailing_white(s.drop_last())
    } else {
        0
    }
}

/// `str::trim_start`.
pub open spec fn trim_start(s: Seq<char>) -> Seq<char> {
    s.subrange(leading_white(s) as int, s.len() as int)
}

/// `str::trim_end`.
pub open spec fn trim_end(s: Seq<char>) -> Seq<char> {
    s.subrange(0, s.len() - trailing_white(s))
}

/// `str::trim`.
pub open spec fn trim(s: Seq<char>) -> Seq<char> {
    trim_end(trim_start(s))
}

pub proof fn lemma_leading_white_bound(s: Seq<char>)
    ensures
        leading_white(s) <= s.len(),
    decreases s.len(),
{
    if s.len() > 0 && is_white_space(s[0]) {
        lemma_leading_white_bound(s.drop_first());
    }
}

pub proof fn lemma_trailing_white_bound(s: Seq<char>)
    ensures
        trailing_white(s) <= s.len(),
    decreases s.len(),
{
    if s.len() > 0 && is_white_space(s.last()) {
        lemma_trailing_white_bound(s.drop_last());
    }
}

/// `trim_start` of a slice `s[lo..hi]`, returned as the new lower bound.
pub fn skip_white(s: &Vec<char>, lo: usize, hi: usize) -> (res: usize)
    requires
        lo <= hi <= s@.len(),
    ensures
        lo <= res <= hi,
        res == lo + leading_white(s@.subrange(lo as int, hi as int)),
{
    let mut i = lo;
    while i < hi && char_is_white_space(s[i])
        invariant
            lo <= i <= hi <= s@.len(),
            leading_white(s@.subrange(lo as int, hi as int)) == (i - lo) + leading_white(
                s@.subrange(i as int, hi as int),
            ),
        decreases hi - i,
    {
        assert(s@.subrange(i as int, hi as int).drop_first() =~= s@.subrange(i + 1, hi as int));
        i += 1;
    }
    i
}

/// `trim_end` of a slice `s[lo..hi]`, returned as the new upper bound.
pub fn skip_white_back(s: &Vec<char>, lo: usize, hi: usize) -> (res: usize)
    requires
        lo <= hi <= s@.len(),
    ensures
        lo <= res <= hi,
        res == hi - trailing_white(s@.subrange(lo as int, hi as int)),
{
    let mut j = hi;
    while j > lo && char_is_white_space(s[j - 1])
        invariant
            lo <= j <= hi <= s@.len(),
            trailing_white(s@.subrange(lo as int, hi as int)) == (hi - j) + trailing_white(
                s@.subrange(lo as int, j as int),
            ),
        decreases j - lo,
    {
        assert(s@.subrange(lo as int, j as int).drop_last() =~= s@.subrange(lo as int, j - 1));
        j -= 1;
    }
    j
}

} // verus!

//! Helpers on text that the other modules share.

use vstd::prelude::*;
use vstd::string::*;

verus! {

/// Whether `c` is white space: one of the characters that have the Unicode
/// property White_Space. They are the controls from tab to carriage return,
/// the space, the next-line control, the no-break space, the ogham space
/// mark, the spaces from en quad to hair space, the line and the paragraph
/// separator, the narrow no-break space, the medium mathematical space and
/// the ideographic space.
pub open spec fn is_white_space(c: char) -> bool {
    let code: u32 = c as u32;
    ||| 0x09 <= code <= 0x0D
    ||| code == 0x20
    ||| code == 0x85
    ||| code == 0xA0
    ||| code == 0x1680
    ||| 0x2000 <= code <= 0x200A
    ||| code == 0x2028
    ||| code == 0x2029
    ||| code == 0x202F
    ||| code == 0x205F
    ||| code == 0x3000
}

/// `text` without the white space at its beginning.
pub open spec fn trim_start(text: Seq<char>) -> Seq<char>
    decreases text.len(),
{
    if text.len() > 0 && is_white_space(text.first()) {
        trim_start(text.drop_first())
    } else {
        text
    }
}

/// `text` without the white space at its end.
pub open spec fn trim_end(text: Seq<char>) -> Seq<char>
    decreases text.len(),
{
    if text.len() > 0 && is_white_space(text.last()) {
        trim_end(text.drop_last())
    } else {
        text
    }
}

/// `text` without the white space around it. White space inside stays.
pub open spec fn trimmed(text: Seq<char>) -> Seq<char> {
    trim_end(trim_start(text))
}

/// Calls `str::trim` of the standard library. Trusted: the result is the
/// text without the leading and trailing characters that have the Unicode
/// property White_Space, as the documentation of `str::trim` says, and
/// `trimmed` spells that out.
#[verifier::external_body]
pub(crate) fn trim(text: &str) -> (short: &str)
    ensures
        short@ == trimmed(text@),
{
    text.trim()
}

/// Where `trim_start` begins: the white space before that place is all that
/// it drops.
proof fn lemma_trim_start(text: Seq<char>) -> (begin: int)
    ensures
        0 <= begin <= text.len(),
        trim_start(text) == text.subrange(begin, text.len() as int),
        forall|k: int| 0 <= k < begin ==> is_white_space(text[k]),
        begin < text.len() ==> !is_white_space(text[begin]),
    decreases text.len(),
{
    if text.len() > 0 && is_white_space(text.first()) {
        let rest = text.drop_first();
        let inner = lemma_trim_start(rest);
        assert(rest.subrange(inner, rest.len() as int) =~= text.subrange(
            inner + 1,
            text.len() as int,
        ));
        assert forall|k: int| 0 <= k < inner + 1 implies is_white_space(text[k]) by {
            if k > 0 {
                assert(text[k] == rest[k - 1]);
            }
        }
        inner + 1
    } else {
        assert(text.subrange(0, text.len() as int) =~= text);
        0
    }
}

/// Where `trim_end` ends: the white space from that place on is all that it
/// drops.
proof fn lemma_trim_end(text: Seq<char>) -> (end: int)
    ensures
        0 <= end <= text.len(),
        trim_end(text) == text.subrange(0, end),
        forall|k: int| end <= k < text.len() ==> is_white_space(text[k]),
        0 < end ==> !is_white_space(text[end - 1]),
    decreases text.len(),
{
    if text.len() > 0 && is_white_space(text.last()) {
        let rest = text.drop_last();
        let inner = lemma_trim_end(rest);
        assert(rest.subrange(0, inner) =~= text.subrange(0, inner));
        assert forall|k: int| inner <= k < text.len() implies is_white_space(text[k]) by {
            if k < rest.len() {
                assert(text[k] == rest[k]);
            }
        }
        inner
    } else {
        assert(text.subrange(0, text.len() as int) =~= text);
        text.len() as int
    }
}

/// Trimming takes away white space at both ends and nothing else: what is
/// left is one stretch of the text, all that stands before it and after it is
/// white space, and it neither begins nor ends with white space. The result
/// of the proof is where the stretch begins and ends.
pub proof fn lemma_trimmed(text: Seq<char>) -> (bounds: (int, int))
    ensures
        0 <= bounds.0 <= bounds.1 <= text.len(),
        trimmed(text) == text.subrange(bounds.0, bounds.1),
        forall|k: int| 0 <= k < bounds.0 ==> is_white_space(text[k]),
        forall|k: int| bounds.1 <= k < text.len() ==> is_white_space(text[k]),
        bounds.0 < bounds.1 ==> !is_white_space(text[bounds.0]) && !is_white_space(
            text[bounds.1 - 1],
        ),
{
    let begin = lemma_trim_start(text);
    let tail = text.subrange(begin, text.len() as int);
    let end = lemma_trim_end(tail);
    assert(tail.subrange(0, end) =~= text.subrange(begin, begin + end));
    assert forall|k: int| begin + end <= k < text.len() implies is_white_space(text[k]) by {
        assert(text[k] == tail[k - begin]);
    }
    if 0 < end {
        assert(tail[end - 1] == text[begin + end - 1]);
        assert(tail[0] == text[begin]);
    }
    (begin, begin + end)
}

/// A text that neither begins nor ends with white space is trimmed to
/// itself.
pub proof fn lemma_clean_text_is_kept(text: Seq<char>)
    requires
        text.len() > 0 ==> !is_white_space(text.first()) && !is_white_space(text.last()),
    ensures
        trimmed(text) == text,
{
}

/// Whether two texts consist of the same characters.
pub(crate) fn same_text(a: &str, b: &str) -> (same: bool)
    ensures
        same == (a@ == b@),
{
    String::from_str(a) == String::from_str(b)
}

/// `first` followed by `second`.
pub(crate) fn joined(first: &str, second: &str) -> (text: String)
    ensures
        text@ == first@ + second@,
{
    let mut text = String::from_str(first);
    text.append(second);
    text
}

/// The text of an optional value, or `fallback` where there is none.
pub open spec fn text_or(value: Option<Seq<char>>, fallback: Seq<char>) -> Seq<char> {
    match value {
        Some(text) => text,
        None => fallback,
    }
}

/// A copy of the text in `value`, or of `fallback` where there is none.
pub(crate) fn copy_or(value: &Option<String>, fallback: &str) -> (text: String)
    ensures
        text@ == text_or(value.deep_view(), fallback@),
{
    match value {
        Some(inner) => inner.clone(),
        None => String::from_str(fallback),
    }
}

} // verus!

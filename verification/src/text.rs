use vstd::prelude::*;

use crate::chain_adapter::is_ascii_alphanumeric;

verus! {

/// The characters that `char::is_whitespace` accepts: those with the Unicode
/// `White_Space` property.
pub open spec fn is_whitespace_char(c: char) -> bool {
    let v = c as u32;
    ||| 0x09 <= v <= 0x0d
    ||| v == 0x20
    ||| v == 0x85
    ||| v == 0xa0
    ||| v == 0x1680
    ||| 0x2000 <= v <= 0x200a
    ||| v == 0x2028
    ||| v == 0x2029
    ||| v == 0x202f
    ||| v == 0x205f
    ||| v == 0x3000
}

/// Text is blank when trimming it leaves nothing: every character is whitespace.
pub open spec fn is_blank_text(text: Seq<char>) -> bool {
    forall|i: int| 0 <= i < text.len() ==> is_whitespace_char(#[trigger] text[i])
}

pub fn is_whitespace(c: char) -> (result: bool)
    ensures
        result == is_whitespace_char(c),
{
    let v = c as u32;
    (0x09 <= v && v <= 0x0d) || v == 0x20 || v == 0x85 || v == 0xa0 || v == 0x1680 || (0x2000
        <= v && v <= 0x200a) || v == 0x2028 || v == 0x2029 || v == 0x202f || v == 0x205f || v
        == 0x3000
}

/// Whether `text.trim()` is empty.
pub fn is_blank(text: &str) -> (result: bool)
    ensures
        result == is_blank_text(text@),
{
    let mut all_whitespace = true;
    for c in it: text.chars()
        invariant
            it.seq() == text@,
            all_whitespace == (forall|j: int| 0 <= j < it.index() ==> is_whitespace_char(#[trigger] text@[j])),
    {
        if !is_whitespace(c) {
            all_whitespace = false;
        }
    }
    all_whitespace
}

/// The `Debug` form of a text: quoted, with quotes, backslashes and
/// unprintable characters escaped. It depends on the text alone.
pub uninterp spec fn debug_quoted(text: Seq<char>) -> Seq<char>;

/// Whether `part` occurs in `text` as a run of consecutive characters.
pub open spec fn contains_text(text: Seq<char>, part: Seq<char>) -> bool {
    exists|p: int|
        0 <= p && p + part.len() <= text.len() && #[trigger] text.subrange(p, p + part.len())
            == part
}

/// `format!("{:?}", text)`: the text in its `Debug` form, as `debug_quoted` names it.
/// `Debug` for `str` escapes each character as `char::escape_debug` does, and
/// that leaves ASCII letters and digits as they are, so a text made of them
/// alone comes out between two double quotes and otherwise unchanged.
#[verifier::external_body]
pub(crate) fn debug_quote(text: &str) -> (quoted: String)
    ensures
        quoted@ == debug_quoted(text@),
        (forall|i: int| 0 <= i < text@.len() ==> is_ascii_alphanumeric(#[trigger] text@[i]))
            ==> quoted@ == seq!['"'] + text@ + seq!['"'],
{
    format!("{:?}", text)
}

} // verus!

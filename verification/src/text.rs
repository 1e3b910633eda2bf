//! Bytes into text, and text into its quoted form.
//!
//! The three functions at the end of this file call the standard library
//! where Verus has no specification of it. Verus takes their contracts on
//! trust; everything else in the library is proved from them.

use vstd::prelude::*;
use vstd::utf8::*;

verus! {

/// The text that `String::from_utf8_lossy` makes of `bytes`: what is valid
/// UTF-8 decoded as it stands, and U+FFFD in place of what is not.
pub uninterp spec fn lossy_decoding(bytes: Seq<u8>) -> Seq<char>;

/// Bytes as a diagnostic shows them: the text that they encode, or their lossy
/// decoding where they encode none.
pub open spec fn shown_text(bytes: Seq<u8>) -> Seq<char> {
    if valid_utf8(bytes) {
        decode_utf8(bytes)
    } else {
        lossy_decoding(bytes)
    }
}

/// The form in which `Debug` prints a path whose text is `text`: between
/// double quotes, with the characters escaped that could not be told apart
/// otherwise.
pub uninterp spec fn debug_quoting(text: Seq<char>) -> Seq<char>;

/// `needle` occurs in `text` at `at`.
pub open spec fn occurs_at(text: Seq<char>, needle: Seq<char>, at: int) -> bool {
    0 <= at && at + needle.len() <= text.len() && text.subrange(at, at + needle.len()) == needle
}

/// `needle` occurs somewhere in `text`, as one unbroken piece.
pub open spec fn occurs_in(text: Seq<char>, needle: Seq<char>) -> bool {
    exists|at: int| occurs_at(text, needle, at)
}

/// What stands between two other pieces of a text occurs in it.
pub proof fn lemma_middle_occurs(before: Seq<char>, needle: Seq<char>, after: Seq<char>)
    ensures
        occurs_in(before + needle + after, needle),
{
    let text = before + needle + after;
    let at = before.len() as int;
    assert(text.subrange(at, at + needle.len()) =~= needle);
    assert(occurs_at(text, needle, at));
}

/// What occurs in a piece of a text occurs in the text.
pub proof fn lemma_occurs_transitive(text: Seq<char>, piece: Seq<char>, needle: Seq<char>)
    requires
        occurs_in(text, piece),
        occurs_in(piece, needle),
    ensures
        occurs_in(text, needle),
{
    let outer = choose|at: int| occurs_at(text, piece, at);
    let inner = choose|at: int| occurs_at(piece, needle, at);
    let at = outer + inner;
    assert(text.subrange(at, at + needle.len()) =~= text.subrange(
        outer,
        outer + piece.len(),
    ).subrange(inner, inner + needle.len()));
    assert(occurs_at(text, needle, at));
}

/// Calls `std::str::from_utf8`. Trusted: the call succeeds exactly on valid
/// UTF-8, and the text it then gives is the one that `bytes` encode.
#[verifier::external_body]
pub(crate) fn decode(bytes: &[u8]) -> (text: Option<&str>)
    ensures
        text is Some <==> valid_utf8(bytes@),
        text matches Some(t) ==> t@ == decode_utf8(bytes@),
{
    match std::str::from_utf8(bytes) {
        Ok(text) => Some(text),
        Err(_) => None,
    }
}

/// Calls `String::from_utf8_lossy`. Trusted: the result depends on the bytes
/// alone, and valid UTF-8 comes back as the text that it encodes.
#[verifier::external_body]
pub(crate) fn decode_lossy(bytes: &[u8]) -> (text: String)
    ensures
        text@ == lossy_decoding(bytes@),
        valid_utf8(bytes@) ==> text@ == decode_utf8(bytes@),
{
    String::from_utf8_lossy(bytes).into_owned()
}

/// Formats `std::path::Path::new(text)` with `{:?}`, which prints it as the
/// operating system's string that it is. Trusted: the result depends on the
/// text alone.
#[verifier::external_body]
pub(crate) fn quote(text: &str) -> (quoted: String)
    ensures
        quoted@ == debug_quoting(text@),
{
    format!("{:?}", std::path::Path::new(text))
}

} // verus!

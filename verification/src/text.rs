//! Strings and their characters: the few operations of `std` on text that the
//! library builds on, each with what it is trusted to do.

use vstd::prelude::*;
use vstd::utf8::{decode_utf8, encode_utf8, valid_utf8};

verus! {

/// `String::push`.
///
/// Trusted: the character is appended and nothing else changes.
#[verifier::external_body]
pub(crate) fn push_char(text: &mut String, c: char)
    ensures
        final(text)@ == old(text)@.push(c),
{
    text.push(c)
}

/// `std::str::from_utf8`.
///
/// Trusted: the bytes are accepted if and only if they are well-formed
/// UTF-8, and the accepted text is stored as just these bytes.
#[verifier::external_body]
pub(crate) fn utf8_str(data: &[u8]) -> (text: Option<&str>)
    ensures
        text is Some <==> valid_utf8(data@),
        text matches Some(t) ==> encode_utf8(t@) == data@,
{
    std::str::from_utf8(data).ok()
}

/// What `String::from_utf8_lossy` makes of `bytes`: the text they encode,
/// with each malformed run replaced by U+FFFD.
pub uninterp spec fn utf8_lossy(bytes: Seq<u8>) -> Seq<char>;

/// `String::from_utf8_lossy`.
///
/// Trusted: the text is a function of the bytes alone, and well-formed
/// UTF-8 comes back as the text it encodes.
#[verifier::external_body]
pub(crate) fn utf8_lossy_string(data: &[u8]) -> (text: String)
    ensures
        text@ == utf8_lossy(data@),
        valid_utf8(data@) ==> text@ == decode_utf8(data@),
{
    String::from_utf8_lossy(data).into_owned()
}

/// What `str::to_lowercase` makes of `text`.
pub uninterp spec fn lowercase(text: Seq<char>) -> Seq<char>;

/// `str::to_lowercase`.
///
/// Trusted: the result is a function of the text alone.
#[verifier::external_body]
pub(crate) fn to_lowercase(text: &str) -> (lower: String)
    ensures
        lower@ == lowercase(text@),
{
    text.to_lowercase()
}

/// The text that well-formed UTF-8 encodes, found from the stored bytes of
/// that text.
pub proof fn lemma_text_of_bytes(text: Seq<char>, bytes: Seq<u8>)
    requires
        encode_utf8(text) == bytes,
    ensures
        valid_utf8(bytes),
        text == decode_utf8(bytes),
{
    vstd::utf8::encode_utf8_valid_utf8(text);
    vstd::utf8::encode_utf8_decode_utf8(text);
}

/// The characters of `text`, in order.
pub fn collect_chars(text: &str) -> (chars: Vec<char>)
    ensures
        chars@ == text@,
{
    let mut chars: Vec<char> = Vec::new();
    for c in it: text.chars()
        invariant
            it.seq() == text@,
            chars@ == text@.subrange(0, it.index()),
    {
        chars.push(c);
    }
    chars
}

/// The string of the characters `chars`, in order.
pub fn string_of_chars(chars: &Vec<char>) -> (text: String)
    ensures
        text@ == chars@,
{
    let mut text = String::new();
    let mut at: usize = 0;
    while at < chars.len()
        invariant
            at <= chars.len(),
            text@ == chars@.subrange(0, at as int),
        decreases chars.len() - at,
    {
        push_char(&mut text, chars[at]);
        at += 1;
    }
    text
}

} // verus!

//! The GBK text encoding, as `encoding_rs` implements it.

use vstd::prelude::*;
use vstd::utf8::encode_utf8;

verus! {

/// The longest payload, in bytes, that is taken through the GBK coder. The
/// coder sizes its buffers as a small multiple of the input's length, and
/// this keeps that size within every `usize`.
pub const MAX_CODED_LEN: usize = 0x100_0000;

/// What the GBK decoder makes of `bytes`: the decoded text, and whether
/// any of the bytes were malformed and replaced.
pub uninterp spec fn gbk_decoded(bytes: Seq<u8>) -> (Seq<char>, bool);

/// What the GBK encoder makes of `text`: the encoded bytes, and whether any
/// of the characters had no encoding and were replaced.
pub uninterp spec fn gbk_encoded(text: Seq<char>) -> (Seq<u8>, bool);

/// `encoding_rs::Encoding::decode` on `encoding_rs::GBK`.
///
/// Trusted: the decoded text and the error flag are a function of the
/// bytes alone. The length is bounded because `decode` panics where the
/// size of its buffer does not fit in `usize`.
#[verifier::external_body]
pub(crate) fn gbk_decode(data: &[u8]) -> (decoded: (String, bool))
    requires
        data@.len() <= MAX_CODED_LEN,
    ensures
        (decoded.0@, decoded.1) == gbk_decoded(data@),
{
    let (text, _, had_errors) = encoding_rs::GBK.decode(data);
    (text.into_owned(), had_errors)
}

/// `encoding_rs::Encoding::encode` on `encoding_rs::GBK`.
///
/// Trusted: the encoded bytes and the error flag are a function of the
/// text alone. The length is bounded because `encode` panics where the
/// size of its buffer does not fit in `usize`.
#[verifier::external_body]
pub(crate) fn gbk_encode(text: &str) -> (encoded: (Vec<u8>, bool))
    requires
        encode_utf8(text@).len() <= MAX_CODED_LEN,
    ensures
        (encoded.0@, encoded.1) == gbk_encoded(text@),
{
    let (bytes, _, had_errors) = encoding_rs::GBK.encode(text);
    (bytes.into_owned(), had_errors)
}

} // verus!

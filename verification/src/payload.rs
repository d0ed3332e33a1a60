//! Outgoing payloads: what the caller wrote down, as text or as hexadecimal
//! digits, turned into the bytes that go out on the line.

use crate::error::SerialError;
use crate::gbk::{gbk_encode, gbk_encoded, MAX_CODED_LEN};
use crate::types::{DataFormat, TextEncoding};
use vstd::prelude::*;
use vstd::utf8::encode_utf8;

verus! {

/// Whether `byte` is a space or a line feed, which may stand anywhere
/// between hexadecimal digits.
pub open spec fn is_filler(byte: u8) -> bool {
    byte == 0x20 || byte == 0x0A
}

/// The bytes of `text` that are no filler, in order.
pub open spec fn without_filler(text: Seq<u8>) -> Seq<u8> {
    text.filter(|byte: u8| !is_filler(byte))
}

/// The value of the hexadecimal digit `byte`, in either case, if it is one.
pub open spec fn hex_value(byte: u8) -> Option<int> {
    if 0x30 <= byte <= 0x39 {
        Some(byte - 0x30)
    } else if 0x41 <= byte <= 0x46 {
        Some(byte - 0x41 + 10)
    } else if 0x61 <= byte <= 0x66 {
        Some(byte - 0x61 + 10)
    } else {
        None
    }
}

/// Whether every byte of `digits` is a hexadecimal digit.
pub open spec fn all_hex_digits(digits: Seq<u8>) -> bool {
    forall|at: int| 0 <= at < digits.len() ==> hex_value(#[trigger] digits[at]) is Some
}

/// The byte that the two digits at `2 * at` and `2 * at + 1` write down.
pub open spec fn byte_at(digits: Seq<u8>, at: int) -> u8 {
    (16 * hex_value(digits[2 * at]).unwrap() + hex_value(digits[2 * at + 1]).unwrap()) as u8
}

/// The bytes that `digits` write down, two digits to a byte.
pub open spec fn bytes_of_digits(digits: Seq<u8>) -> Seq<u8> {
    Seq::new(digits.len() / 2, |at: int| byte_at(digits, at))
}

/// The bytes that the hexadecimal text `text` writes down. Spaces and line
/// feeds are skipped. What is left must be an even number of hexadecimal
/// digits: an odd number of bytes is refused first, then a byte that is no
/// digit.
pub open spec fn parsed_hex(text: Seq<u8>) -> Result<Seq<u8>, SerialError> {
    let digits = without_filler(text);
    if digits.len() % 2 != 0 {
        Err(SerialError::OddHexLength)
    } else if !all_hex_digits(digits) {
        Err(SerialError::InvalidHex)
    } else {
        Ok(bytes_of_digits(digits))
    }
}

/// The bytes that go out for `text`, written down in `format`: for text,
/// its encoding in `encoding`; for hexadecimal digits, the bytes they write
/// down.
pub open spec fn outgoing_bytes(
    text: Seq<char>,
    format: DataFormat,
    encoding: TextEncoding,
) -> Result<Seq<u8>, SerialError> {
    match format {
        DataFormat::Text => match encoding {
            TextEncoding::Utf8 => Ok(encode_utf8(text)),
            TextEncoding::Gbk => Ok(gbk_encoded(text).0),
        },
        DataFormat::Hex => parsed_hex(encode_utf8(text)),
    }
}

/// The view of a parse result.
pub open spec fn bytes_result(result: Result<Vec<u8>, SerialError>) -> Result<
    Seq<u8>,
    SerialError,
> {
    match result {
        Ok(bytes) => Ok(bytes@),
        Err(e) => Err(e),
    }
}

/// The value of the hexadecimal digit `byte`, if it is one.
fn hex_digit_value(byte: u8) -> (value: Option<u8>)
    ensures
        match value {
            Some(v) => hex_value(byte) == Some(v as int) && v < 16,
            None => hex_value(byte) is None,
        },
{
    if 0x30 <= byte && byte <= 0x39 {
        Some(byte - 0x30)
    } else if 0x41 <= byte && byte <= 0x46 {
        Some(byte - 0x41 + 10)
    } else if 0x61 <= byte && byte <= 0x66 {
        Some(byte - 0x61 + 10)
    } else {
        None
    }
}

/// The bytes of `text` that are neither a space nor a line feed.
fn strip_filler(text: &[u8]) -> (digits: Vec<u8>)
    ensures
        digits@ == without_filler(text@),
{
    let mut digits: Vec<u8> = Vec::new();
    let mut at: usize = 0;
    proof {
        reveal(Seq::filter);
    }
    while at < text.len()
        invariant
            at <= text.len(),
            digits@ == without_filler(text@.subrange(0, at as int)),
        decreases text.len() - at,
    {
        let byte = text[at];
        proof {
            reveal(Seq::filter);
            assert(text@.subrange(0, at + 1).drop_last() =~= text@.subrange(0, at as int));
        }
        if byte != 0x20 && byte != 0x0A {
            digits.push(byte);
        }
        at += 1;
    }
    assert(text@.subrange(0, text@.len() as int) =~= text@);
    digits
}

/// The bytes that the hexadecimal text `text` writes down, as in
/// `48656c6c6f` or `48 65 6C 6C 6F`. Spaces and line feeds are skipped;
/// digits of either case count. An odd number of bytes left is refused
/// with `OddHexLength`, an even number with a byte that is no digit with
/// `InvalidHex`.
pub fn parse_hex(text: &[u8]) -> (parsed: Result<Vec<u8>, SerialError>)
    ensures
        bytes_result(parsed) == parsed_hex(text@),
{
    let digits = strip_filler(text);
    if digits.len() % 2 != 0 {
        return Err(SerialError::OddHexLength);
    }
    let count: usize = digits.len() / 2;
    let mut bytes: Vec<u8> = Vec::new();
    let mut at: usize = 0;
    while at < count
        invariant
            at <= count,
            count == digits@.len() / 2,
            digits@.len() % 2 == 0,
            digits@ == without_filler(text@),
            bytes@.len() == at,
            forall|k: int| 0 <= k < 2 * at ==> hex_value(#[trigger] digits@[k]) is Some,
            forall|k: int| 0 <= k < at ==> bytes@[k] == byte_at(digits@, k),
        decreases count - at,
    {
        let high = hex_digit_value(digits[2 * at]);
        let low = hex_digit_value(digits[2 * at + 1]);
        match (high, low) {
            (Some(h), Some(l)) => {
                bytes.push(16 * h + l);
            },
            _ => {
                assert(hex_value(digits@[2 * at]) is None || hex_value(digits@[2 * at + 1])
                    is None);
                return Err(SerialError::InvalidHex);
            },
        }
        at += 1;
    }
    assert(bytes@ =~= bytes_of_digits(digits@));
    Ok(bytes)
}

/// The bytes that go out for `data`, written down in `format`: for text,
/// its encoding in `encoding`; for hexadecimal digits, the bytes they write
/// down. Characters that GBK cannot hold go out as the GBK encoder
/// replaces them.
pub fn encode_outgoing(data: &str, format: DataFormat, encoding: TextEncoding) -> (bytes: Result<
    Vec<u8>,
    SerialError,
>)
    requires
        format == DataFormat::Text && encoding == TextEncoding::Gbk ==> encode_utf8(data@).len()
            <= MAX_CODED_LEN,
    ensures
        bytes_result(bytes) == outgoing_bytes(data@, format, encoding),
{
    match format {
        DataFormat::Text => match encoding {
            TextEncoding::Utf8 => Ok(data.as_bytes_vec()),
            TextEncoding::Gbk => {
                let (bytes, _) = gbk_encode(data);
                Ok(bytes)
            },
        },
        DataFormat::Hex => parse_hex(data.as_bytes()),
    }
}

} // verus!

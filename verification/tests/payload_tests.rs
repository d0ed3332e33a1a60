use rserial::error::SerialError;
use rserial::payload::{encode_outgoing, parse_hex};
use rserial::types::{DataFormat, TextEncoding};

#[test]
fn hex_digits_write_down_bytes() {
    assert_eq!(parse_hex(b"48656c6c6f"), Ok(b"Hello".to_vec()));
    assert_eq!(parse_hex(b"48 65 6C 6C 6F"), Ok(b"Hello".to_vec()));
    assert_eq!(parse_hex(b"4 8\n65"), Ok(vec![0x48, 0x65]));
    assert_eq!(parse_hex(b"00ff7F"), Ok(vec![0x00, 0xFF, 0x7F]));
    assert_eq!(parse_hex(b""), Ok(Vec::new()));
    assert_eq!(parse_hex(b" \n "), Ok(Vec::new()));
}

#[test]
fn an_odd_number_of_digits_is_refused() {
    assert_eq!(parse_hex(b"48 65 F"), Err(SerialError::OddHexLength));
    assert_eq!(parse_hex(b"F"), Err(SerialError::OddHexLength));
    assert_eq!(parse_hex(b"xyz"), Err(SerialError::OddHexLength));
}

#[test]
fn what_is_no_hex_digit_is_refused() {
    assert_eq!(parse_hex(b"4G"), Err(SerialError::InvalidHex));
    assert_eq!(parse_hex(b"48\t65"), Err(SerialError::OddHexLength));
    assert_eq!(parse_hex(b"48\r\n65"), Err(SerialError::OddHexLength));
    assert_eq!(parse_hex(b"+F"), Err(SerialError::InvalidHex));
    assert_eq!(parse_hex(b"0x48"), Err(SerialError::InvalidHex));
    assert_eq!(parse_hex("\u{e9}".as_bytes()), Err(SerialError::InvalidHex));
}

#[test]
fn a_hex_string_goes_out_as_its_bytes() {
    assert_eq!(encode_outgoing("48656c6c6f", DataFormat::Hex, TextEncoding::Utf8), Ok(b"Hello".to_vec()));
    assert_eq!(encode_outgoing("48 65 F", DataFormat::Hex, TextEncoding::Utf8), Err(SerialError::OddHexLength));
    assert_eq!(encode_outgoing("zz", DataFormat::Hex, TextEncoding::Gbk), Err(SerialError::InvalidHex));
}

#[test]
fn text_goes_out_in_its_encoding() {
    assert_eq!(
        encode_outgoing("h\u{e9}", DataFormat::Text, TextEncoding::Utf8),
        Ok(vec![0x68, 0xC3, 0xA9])
    );
    assert_eq!(
        encode_outgoing("\u{4e2d}\u{6587}", DataFormat::Text, TextEncoding::Gbk),
        Ok(vec![0xD6, 0xD0, 0xCE, 0xC4])
    );
    assert_eq!(encode_outgoing("AT\r\n", DataFormat::Text, TextEncoding::Gbk), Ok(b"AT\r\n".to_vec()));
    assert_eq!(encode_outgoing("48", DataFormat::Text, TextEncoding::Utf8), Ok(b"48".to_vec()));
}

#[test]
fn characters_without_a_gbk_encoding_go_out_replaced() {
    let bytes = encode_outgoing("a\u{1F600}", DataFormat::Text, TextEncoding::Gbk).unwrap();
    assert_eq!(bytes, b"a&#128512;".to_vec());
}

#[test]
fn errors_have_their_messages() {
    assert_eq!(SerialError::NotConnected.message(), "No port is currently open");
    assert_eq!(SerialError::TextRecordingActive.message(), "Text recording is already active");
    assert_eq!(SerialError::RawRecordingActive.message(), "Raw recording is already active");
    assert_eq!(SerialError::OddHexLength.message(), "Hex string must have even number of characters");
    assert_eq!(SerialError::InvalidHex.message(), "Invalid hex characters");
}

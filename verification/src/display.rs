//! The display formatter: a payload as hexadecimal digits, or as the text it
//! encodes with the characters that do not show made visible.
//!
//! A payload that is not well-formed under the text encoding in use is shown
//! in hexadecimal as a whole, never with replacement characters.

use crate::gbk::{gbk_decode, gbk_decoded, MAX_CODED_LEN};
use crate::text::{collect_chars, lemma_text_of_bytes, push_char, utf8_str};
use crate::types::{DisplaySettings, ReceiveDisplayFormat, SpecialCharConfig, TextEncoding};
use vstd::prelude::*;
use vstd::utf8::{decode_utf8, valid_utf8};

verus! {

/// The glyph shown for a line feed.
pub const GLYPH_LF: char = '\u{240A}';

/// The glyph shown for a carriage return.
pub const GLYPH_CR: char = '\u{240D}';

/// The glyph shown for a tabulator.
pub const GLYPH_TAB: char = '\u{2409}';

/// The glyph shown for a NUL character.
pub const GLYPH_NUL: char = '\u{2400}';

/// The glyph shown for an escape character.
pub const GLYPH_ESC: char = '\u{241B}';

/// The glyph shown for a space that would not be seen.
pub const GLYPH_SPACE: char = '\u{2423}';

/// The upper-case hexadecimal digit for `n`.
pub open spec fn hex_digit(n: int) -> char {
    seq!['0', '1', '2', '3', '4', '5', '6', '7', '8', '9', 'A', 'B', 'C', 'D', 'E', 'F'][n]
}

/// The character at offset `at` of the hexadecimal text of `data`: every
/// byte takes two digits, and a space stands between two bytes.
pub open spec fn hex_char_at(data: Seq<u8>, at: int) -> char {
    if at % 3 == 0 {
        hex_digit(data[at / 3] as int / 16)
    } else if at % 3 == 1 {
        hex_digit(data[at / 3] as int % 16)
    } else {
        ' '
    }
}

/// The hexadecimal text of `data`: each byte as two upper-case digits, the
/// bytes separated by one space.
pub open spec fn hex_text(data: Seq<u8>) -> Seq<char> {
    if data.len() == 0 {
        Seq::empty()
    } else {
        Seq::new((3 * data.len() - 1) as nat, |at: int| hex_char_at(data, at))
    }
}

/// The character shown for `c` under `config`: its glyph where `c` is a line
/// feed, carriage return, tabulator, NUL or escape whose substitution is
/// switched on, else `c` itself.
pub open spec fn substitute(c: char, config: SpecialCharConfig) -> char {
    if c == '\n' && config.convert_lf {
        GLYPH_LF
    } else if c == '\r' && config.convert_cr {
        GLYPH_CR
    } else if c == '\t' && config.convert_tab {
        GLYPH_TAB
    } else if c == '\0' && config.convert_null {
        GLYPH_NUL
    } else if c == '\x1B' && config.convert_esc {
        GLYPH_ESC
    } else {
        c
    }
}

/// Whether the character at `at` is a space that is shown as a glyph: one
/// of two or more spaces in a row, or one at the end of its line or of the
/// text.
pub open spec fn space_is_marked(text: Seq<char>, at: int) -> bool {
    &&& text[at] == ' '
    &&& {
        ||| at > 0 && text[at - 1] == ' '
        ||| at + 1 < text.len() && text[at + 1] == ' '
        ||| at + 1 == text.len()
        ||| text[at + 1] == '\n'
    }
}

/// The character at offset `at` of the visible form of `text`.
pub open spec fn visible_char_at(text: Seq<char>, config: SpecialCharConfig, at: int) -> char {
    let shown = text.map_values(|c: char| substitute(c, config));
    if config.convert_spaces && space_is_marked(shown, at) {
        GLYPH_SPACE
    } else {
        shown[at]
    }
}

/// The visible form of `text` under `config`. Where `config.enabled` is
/// off, it is `text`. Else each character is substituted as its switch says,
/// and, where `config.convert_spaces` is on, each space that stands in a run
/// of two or more, or at the end of a line or of the text, becomes the space
/// glyph; a single space elsewhere stays. Lines are what the line feeds that
/// were not substituted divide.
pub open spec fn visualize(text: Seq<char>, config: SpecialCharConfig) -> Seq<char> {
    if config.enabled {
        Seq::new(text.len(), |at: int| visible_char_at(text, config, at))
    } else {
        text
    }
}

/// The display text of `data` as text in `encoding`: the visible form of
/// the decoded text, or the hexadecimal text of `data` where `data` is not
/// well-formed in `encoding`.
pub open spec fn text_display(
    data: Seq<u8>,
    encoding: TextEncoding,
    config: SpecialCharConfig,
) -> Seq<char> {
    match encoding {
        TextEncoding::Utf8 => if valid_utf8(data) {
            visualize(decode_utf8(data), config)
        } else {
            hex_text(data)
        },
        TextEncoding::Gbk => if gbk_decoded(data).1 {
            hex_text(data)
        } else {
            visualize(gbk_decoded(data).0, config)
        },
    }
}

/// The display text of `data` under `settings`.
pub open spec fn display_text(data: Seq<u8>, settings: DisplaySettings) -> Seq<char> {
    match settings.format {
        ReceiveDisplayFormat::Hex => hex_text(data),
        ReceiveDisplayFormat::Txt => text_display(
            data,
            settings.encoding,
            settings.special_char_config,
        ),
    }
}

/// Formatting is repeatable: two texts that `format_data_for_display` hands
/// back for one payload under one setting are the same text. The display
/// text is a function of the payload and the settings, and of nothing that
/// an earlier call could have left behind.
pub proof fn lemma_display_is_repeatable(
    data: Seq<u8>,
    settings: DisplaySettings,
    first: Seq<char>,
    second: Seq<char>,
)
    requires
        first == display_text(data, settings),
        second == display_text(data, settings),
    ensures
        first == second,
{
}

/// A payload that is not well-formed in the text encoding in use is
/// displayed as the hexadecimal formatter displays it, whatever the
/// substitutions.
pub proof fn lemma_malformed_shows_as_hex(data: Seq<u8>, settings: DisplaySettings)
    requires
        match settings.encoding {
            TextEncoding::Utf8 => !valid_utf8(data),
            TextEncoding::Gbk => gbk_decoded(data).1,
        },
    ensures
        text_display(data, settings.encoding, settings.special_char_config) == hex_text(data),
        display_text(data, settings) == hex_text(data),
        display_text(data, settings) == display_text(
            data,
            DisplaySettings { format: ReceiveDisplayFormat::Hex, ..settings },
        ),
{
}

/// The upper-case hexadecimal digit for `n`.
fn hex_digit_char(n: u8) -> (c: char)
    requires
        n < 16,
    ensures
        c == hex_digit(n as int),
{
    match n {
        0 => '0',
        1 => '1',
        2 => '2',
        3 => '3',
        4 => '4',
        5 => '5',
        6 => '6',
        7 => '7',
        8 => '8',
        9 => '9',
        10 => 'A',
        11 => 'B',
        12 => 'C',
        13 => 'D',
        14 => 'E',
        _ => 'F',
    }
}

/// `data` in hexadecimal: each byte as two upper-case digits, the bytes
/// separated by one space, as in `48 65 6C 6C 6F`.
pub fn format_bytes_as_hex(data: &[u8]) -> (text: String)
    ensures
        text@ == hex_text(data@),
{
    let mut text = String::new();
    let mut at: usize = 0;
    while at < data.len()
        invariant
            at <= data.len(),
            text@ == hex_text(data@.subrange(0, at as int)),
        decreases data.len() - at,
    {
        let byte = data[at];
        if at > 0 {
            push_char(&mut text, ' ');
        }
        push_char(&mut text, hex_digit_char(byte / 16));
        push_char(&mut text, hex_digit_char(byte % 16));
        at += 1;
    }
    text
}

/// The character shown for `c` under `config`.
fn substitute_char(c: char, config: &SpecialCharConfig) -> (shown: char)
    ensures
        shown == substitute(c, *config),
{
    if c == '\n' && config.convert_lf {
        GLYPH_LF
    } else if c == '\r' && config.convert_cr {
        GLYPH_CR
    } else if c == '\t' && config.convert_tab {
        GLYPH_TAB
    } else if c == '\0' && config.convert_null {
        GLYPH_NUL
    } else if c == '\x1B' && config.convert_esc {
        GLYPH_ESC
    } else {
        c
    }
}

/// `text` with the characters that do not show made visible, as `config`
/// says.
pub fn visualize_text(text: &str, config: &SpecialCharConfig) -> (shown: String)
    ensures
        shown@ == visualize(text@, *config),
{
    let mut shown = String::new();
    if !config.enabled {
        shown.append(text);
        return shown;
    }
    let chars = collect_chars(text);
    let mut at: usize = 0;
    while at < chars.len()
        invariant
            at <= chars.len(),
            chars@ == text@,
            config.enabled,
            shown@ == visualize(text@, *config).subrange(0, at as int),
        decreases chars.len() - at,
    {
        let c = substitute_char(chars[at], config);
        let mut marked = false;
        if config.convert_spaces && c == ' ' {
            let after_space = at > 0 && substitute_char(chars[at - 1], config) == ' ';
            let before_space = at + 1 < chars.len() && substitute_char(chars[at + 1], config)
                == ' ';
            let at_line_end = at + 1 == chars.len() || substitute_char(chars[at + 1], config)
                == '\n';
            marked = after_space || before_space || at_line_end;
        }
        if marked {
            push_char(&mut shown, GLYPH_SPACE);
        } else {
            push_char(&mut shown, c);
        }
        at += 1;
    }
    shown
}

/// `data` as text in `encoding`, with the characters that do not show made
/// visible as `config` says. Data that is not well-formed in `encoding` is
/// shown in hexadecimal instead.
pub fn format_bytes_as_text(
    data: &[u8],
    encoding: &TextEncoding,
    config: &SpecialCharConfig,
) -> (text: String)
    requires
        *encoding == TextEncoding::Gbk ==> data@.len() <= MAX_CODED_LEN,
    ensures
        text@ == text_display(data@, *encoding, *config),
{
    match encoding {
        TextEncoding::Utf8 => {
            match utf8_str(data) {
                Some(decoded) => {
                    proof {
                        lemma_text_of_bytes(decoded@, data@);
                    }
                    visualize_text(decoded, config)
                },
                None => format_bytes_as_hex(data),
            }
        },
        TextEncoding::Gbk => {
            let (decoded, had_errors) = gbk_decode(data);
            render_decoded(data, decoded.as_str(), had_errors, config)
        },
    }
}

/// The display text of `data`, given the text `decoded` that a decoder
/// made of it and whether the decoder met errors: the hexadecimal text of
/// `data` where it did, else the visible form of `decoded`.
pub fn render_decoded(
    data: &[u8],
    decoded: &str,
    had_errors: bool,
    config: &SpecialCharConfig,
) -> (text: String)
    ensures
        had_errors ==> text@ == hex_text(data@),
        !had_errors ==> text@ == visualize(decoded@, *config),
{
    if had_errors {
        format_bytes_as_hex(data)
    } else {
        visualize_text(decoded, config)
    }
}

/// `data` as `settings` say it is displayed: in hexadecimal, or as text.
pub fn format_data_for_display(data: &[u8], settings: &DisplaySettings) -> (text: String)
    requires
        settings.format == ReceiveDisplayFormat::Txt && settings.encoding == TextEncoding::Gbk
            ==> data@.len() <= MAX_CODED_LEN,
    ensures
        text@ == display_text(data@, *settings),
{
    match settings.format {
        ReceiveDisplayFormat::Hex => format_bytes_as_hex(data),
        ReceiveDisplayFormat::Txt => format_bytes_as_text(
            data,
            &settings.encoding,
            &settings.special_char_config,
        ),
    }
}

} // verus!

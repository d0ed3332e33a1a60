use rserial::display::{
    format_bytes_as_hex, format_bytes_as_text, format_data_for_display, render_decoded, visualize_text,
};
use rserial::types::{DisplaySettings, ReceiveDisplayFormat, SpecialCharConfig, TextEncoding};

fn plain() -> SpecialCharConfig {
    SpecialCharConfig { enabled: false, ..SpecialCharConfig::default() }
}

fn only_spaces() -> SpecialCharConfig {
    SpecialCharConfig {
        enabled: true,
        convert_lf: false,
        convert_cr: false,
        convert_tab: false,
        convert_null: false,
        convert_esc: false,
        convert_spaces: true,
    }
}

#[test]
fn hex_is_two_upper_case_digits_per_byte_with_spaces_between() {
    assert_eq!(format_bytes_as_hex(b"Hello"), "48 65 6C 6C 6F");
    assert_eq!(format_bytes_as_hex(&[0x00, 0x0F, 0xA0, 0xFF]), "00 0F A0 FF");
    assert_eq!(format_bytes_as_hex(&[0xAB]), "AB");
    assert_eq!(format_bytes_as_hex(&[]), "");
}

#[test]
fn control_characters_show_as_their_glyphs() {
    let shown = visualize_text("a\nb\rc\td\0e\x1Bf", &SpecialCharConfig::default());
    assert_eq!(shown, "a\u{240A}b\u{240D}c\u{2409}d\u{2400}e\u{241B}f");
}

#[test]
fn each_switch_governs_its_own_character() {
    let mut config = SpecialCharConfig::default();
    config.convert_cr = false;
    config.convert_esc = false;
    assert_eq!(visualize_text("\n\r\t\0\x1B", &config), "\u{240A}\r\u{2409}\u{2400}\x1B");
}

#[test]
fn a_switched_off_substitution_leaves_the_text_alone() {
    assert_eq!(visualize_text("a \n\t  b  ", &plain()), "a \n\t  b  ");
}

#[test]
fn runs_of_spaces_and_trailing_spaces_become_visible() {
    let config = SpecialCharConfig::default();
    assert_eq!(visualize_text("a b", &config), "a b");
    assert_eq!(visualize_text("a  b", &config), "a\u{2423}\u{2423}b");
    assert_eq!(visualize_text("a   b c", &config), "a\u{2423}\u{2423}\u{2423}b c");
    assert_eq!(visualize_text("hi ", &config), "hi\u{2423}");
    assert_eq!(visualize_text("hi  ", &config), "hi\u{2423}\u{2423}");
    assert_eq!(visualize_text(" hi", &config), " hi");
    assert_eq!(visualize_text("  hi", &config), "\u{2423}\u{2423}hi");
    assert_eq!(visualize_text(" ", &config), "\u{2423}");
    assert_eq!(visualize_text("", &config), "");
}

#[test]
fn a_space_before_a_kept_line_feed_is_at_the_end_of_its_line() {
    assert_eq!(visualize_text("a \nb c\n d", &only_spaces()), "a\u{2423}\nb c\n d");
    assert_eq!(visualize_text("a \rb", &only_spaces()), "a \rb");
}

#[test]
fn a_space_before_a_substituted_line_feed_is_inside_its_line() {
    assert_eq!(visualize_text("a  b \n", &SpecialCharConfig::default()), "a\u{2423}\u{2423}b \u{240A}");
}

#[test]
fn spaces_stay_when_their_switch_is_off() {
    let mut config = SpecialCharConfig::default();
    config.convert_spaces = false;
    assert_eq!(visualize_text("a  b \n", &config), "a  b \u{240A}");
}

#[test]
fn well_formed_utf8_is_decoded() {
    let text = format_bytes_as_text("h\u{e9}llo \u{4e2d}".as_bytes(), &TextEncoding::Utf8, &plain());
    assert_eq!(text, "h\u{e9}llo \u{4e2d}");
    assert_eq!(format_bytes_as_text(b"", &TextEncoding::Utf8, &plain()), "");
}

#[test]
fn malformed_utf8_is_shown_in_hex_as_a_whole() {
    let data = [0x48, 0x69, 0xFF, 0x0A];
    let text = format_bytes_as_text(&data, &TextEncoding::Utf8, &SpecialCharConfig::default());
    assert_eq!(text, "48 69 FF 0A");
    assert_eq!(text, format_bytes_as_hex(&data));
    let cut_short = [0xE4, 0xB8];
    assert_eq!(format_bytes_as_text(&cut_short, &TextEncoding::Utf8, &plain()), "E4 B8");
}

#[test]
fn well_formed_gbk_is_decoded() {
    let data = [0xD6, 0xD0, 0xCE, 0xC4, 0x0A];
    assert_eq!(format_bytes_as_text(&data, &TextEncoding::Gbk, &plain()), "\u{4e2d}\u{6587}\n");
    assert_eq!(
        format_bytes_as_text(&data, &TextEncoding::Gbk, &SpecialCharConfig::default()),
        "\u{4e2d}\u{6587}\u{240A}"
    );
    assert_eq!(format_bytes_as_text(b"plain", &TextEncoding::Gbk, &plain()), "plain");
}

#[test]
fn malformed_gbk_is_shown_in_hex_as_a_whole() {
    let data = [0x41, 0xFF, 0x42];
    assert_eq!(format_bytes_as_text(&data, &TextEncoding::Gbk, &plain()), "41 FF 42");
    let cut_short = [0x41, 0xD6];
    assert_eq!(format_bytes_as_text(&cut_short, &TextEncoding::Gbk, &plain()), format_bytes_as_hex(&cut_short));
}

#[test]
fn a_decoder_error_sends_the_payload_to_hex() {
    let config = SpecialCharConfig::default();
    assert_eq!(render_decoded(b"ab", "a\u{FFFD}", true, &config), "61 62");
    assert_eq!(render_decoded(b"a\n", "a\n", false, &config), "a\u{240A}");
}

#[test]
fn settings_choose_between_hex_and_text() {
    let mut settings = DisplaySettings::default();
    assert_eq!(format_data_for_display(b"ok\r\n", &settings), "ok\u{240D}\u{240A}");
    settings.format = ReceiveDisplayFormat::Hex;
    assert_eq!(format_data_for_display(b"ok\r\n", &settings), "6F 6B 0D 0A");
    settings.format = ReceiveDisplayFormat::Txt;
    settings.encoding = TextEncoding::Gbk;
    assert_eq!(format_data_for_display(&[0xC4, 0xE3, 0xBA, 0xC3], &settings), "\u{4f60}\u{597d}");
}

#[test]
fn formatting_twice_gives_the_same_text() {
    let settings = DisplaySettings::default();
    let payloads: [&[u8]; 4] = [b"a  b \n", &[0xFF, 0x00], "\u{4e2d}".as_bytes(), b""];
    for payload in payloads {
        let first = format_data_for_display(payload, &settings);
        let second = format_data_for_display(payload, &settings);
        assert_eq!(first, second);
    }
}

#[test]
fn the_default_settings_are_text_in_utf8_with_every_substitution() {
    let settings = DisplaySettings::default();
    assert_eq!(settings.format, ReceiveDisplayFormat::Txt);
    assert_eq!(settings.encoding, TextEncoding::Utf8);
    assert!(settings.show_timestamps);
    let config = settings.special_char_config;
    assert!(config.enabled && config.convert_lf && config.convert_cr && config.convert_tab);
    assert!(config.convert_null && config.convert_esc && config.convert_spaces);
}

use rserial::clock::UtcTime;
use rserial::recording::{recording_name, text_record_line};
use rserial::types::Direction;

fn noon() -> UtcTime {
    UtcTime::new(1_700_000_000, 123_456_789).unwrap()
}

#[test]
fn a_record_line_has_the_time_the_direction_and_the_text() {
    assert_eq!(text_record_line(b"hello", Direction::Received, noon(), 0), "[22:13:20.123] RX: hello\n");
    assert_eq!(text_record_line(b"AT\r\n", Direction::Sent, noon(), 480), "[06:13:20.123] TX: AT\r\n\n");
    assert_eq!(text_record_line(b"", Direction::Sent, noon(), 0), "[22:13:20.123] TX: \n");
}

#[test]
fn malformed_bytes_are_replaced_in_a_record_line() {
    assert_eq!(
        text_record_line(&[0x61, 0xFF, 0x62], Direction::Received, noon(), 0),
        "[22:13:20.123] RX: a\u{FFFD}b\n"
    );
}

#[test]
fn a_recording_is_named_after_device_and_time() {
    assert_eq!(recording_name(Some("COM3"), "txt", noon(), 0), "COM3_2023-11-14_22-13-20.txt");
    assert_eq!(recording_name(Some("COM3"), "bin", noon(), 480), "COM3_2023-11-15_06-13-20.bin");
}

#[test]
fn characters_that_file_names_cannot_hold_become_underscores() {
    assert_eq!(
        recording_name(Some("/dev/ttyUSB0"), "txt", noon(), 0),
        "_dev_ttyUSB0_2023-11-14_22-13-20.txt"
    );
    assert_eq!(
        recording_name(Some("a\\b:c*d?e\"f<g>h|i"), "bin", noon(), 0),
        "a_b_c_d_e_f_g_h_i_2023-11-14_22-13-20.bin"
    );
}

#[test]
fn a_recording_without_a_device_is_named_unknown() {
    assert_eq!(recording_name(None, "txt", noon(), 0), "UNKNOWN_2023-11-14_22-13-20.txt");
}

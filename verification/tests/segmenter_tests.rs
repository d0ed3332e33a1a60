use rserial::segmenter::FrameSegmenter;
use rserial::types::{FrameDelimiter, FrameSegmentationConfig, FrameSegmentationMode};

fn config(mode: FrameSegmentationMode, timeout_ms: u64, delimiter: FrameDelimiter) -> FrameSegmentationConfig {
    FrameSegmentationConfig { mode, timeout_ms, delimiter }
}

#[test]
fn delimiter_mode_joins_two_reads_into_one_frame() {
    let cfg = config(FrameSegmentationMode::Delimiter, 10, FrameDelimiter::LF);
    let mut segmenter = FrameSegmenter::new(0);
    assert_eq!(segmenter.push(b"AB", 1, &cfg), Vec::<Vec<u8>>::new());
    assert_eq!(segmenter.buffer, b"AB".to_vec());
    assert_eq!(segmenter.push(b"CD\n", 2, &cfg), vec![b"ABCD\n".to_vec()]);
    assert!(segmenter.buffer.is_empty());
    assert_eq!(segmenter.last_data_ms, 2);
}

#[test]
fn every_frame_of_one_read_comes_out_in_order() {
    let cfg = config(FrameSegmentationMode::Delimiter, 10, FrameDelimiter::LF);
    let mut segmenter = FrameSegmenter::new(0);
    let frames = segmenter.push(b"one\ntwo\n\nrest", 5, &cfg);
    assert_eq!(frames, vec![b"one\n".to_vec(), b"two\n".to_vec(), b"\n".to_vec()]);
    assert_eq!(segmenter.buffer, b"rest".to_vec());
}

#[test]
fn any_newline_takes_crlf_as_one_boundary() {
    let cfg = config(FrameSegmentationMode::Combined, 10, FrameDelimiter::AnyNewline);
    let mut segmenter = FrameSegmenter::new(0);
    let frames = segmenter.push(b"a\r\nb\rc\nd", 0, &cfg);
    assert_eq!(frames, vec![b"a\r\n".to_vec(), b"b\r".to_vec(), b"c\n".to_vec()]);
    assert_eq!(segmenter.buffer, b"d".to_vec());
}

#[test]
fn fixed_delimiters_match_their_bytes() {
    let mut segmenter = FrameSegmenter::new(0);
    let cr = config(FrameSegmentationMode::Delimiter, 10, FrameDelimiter::CR);
    assert_eq!(segmenter.push(b"a\rb\n", 0, &cr), vec![b"a\r".to_vec()]);
    let crlf = config(FrameSegmentationMode::Delimiter, 10, FrameDelimiter::CRLF);
    assert_eq!(segmenter.push(b"\r\nc", 0, &crlf), vec![b"b\n\r\n".to_vec()]);
    let custom = config(FrameSegmentationMode::Delimiter, 10, FrameDelimiter::Custom(b"::".to_vec()));
    assert_eq!(segmenter.push(b":d::e", 0, &custom), vec![b"c:d::".to_vec()]);
    assert_eq!(segmenter.buffer, b"e".to_vec());
}

#[test]
fn an_empty_custom_delimiter_ends_no_frame() {
    let cfg = config(FrameSegmentationMode::Delimiter, 10, FrameDelimiter::Custom(Vec::new()));
    let mut segmenter = FrameSegmenter::new(0);
    assert!(segmenter.push(b"abc", 0, &cfg).is_empty());
    assert_eq!(segmenter.buffer, b"abc".to_vec());
}

#[test]
fn timeout_mode_does_not_scan_for_delimiters() {
    let cfg = config(FrameSegmentationMode::Timeout, 10, FrameDelimiter::LF);
    let mut segmenter = FrameSegmenter::new(0);
    assert!(segmenter.push(b"a\nb\n", 3, &cfg).is_empty());
    assert_eq!(segmenter.buffer, b"a\nb\n".to_vec());
}

#[test]
fn timeout_flush_waits_until_the_silence_is_longer_than_the_timeout() {
    let cfg = config(FrameSegmentationMode::Timeout, 10, FrameDelimiter::AnyNewline);
    let mut segmenter = FrameSegmenter::new(0);
    segmenter.push(b"hello", 100, &cfg);
    assert_eq!(segmenter.flush_idle(105, &cfg), None);
    assert_eq!(segmenter.flush_idle(110, &cfg), None);
    assert_eq!(segmenter.buffer, b"hello".to_vec());
    assert_eq!(segmenter.flush_idle(111, &cfg), Some(b"hello".to_vec()));
    assert!(segmenter.buffer.is_empty());
    assert_eq!(segmenter.flush_idle(500, &cfg), None);
}

#[test]
fn delimiter_mode_never_flushes_on_silence() {
    let cfg = config(FrameSegmentationMode::Delimiter, 10, FrameDelimiter::LF);
    let mut segmenter = FrameSegmenter::new(0);
    segmenter.push(b"hello", 0, &cfg);
    assert_eq!(segmenter.flush_idle(10_000, &cfg), None);
    assert_eq!(segmenter.buffer, b"hello".to_vec());
}

#[test]
fn combined_mode_flushes_what_no_delimiter_ends() {
    let cfg = config(FrameSegmentationMode::Combined, 10, FrameDelimiter::AnyNewline);
    let mut segmenter = FrameSegmenter::new(0);
    assert_eq!(segmenter.push(b"a\r\nb", 0, &cfg), vec![b"a\r\n".to_vec()]);
    assert_eq!(segmenter.flush_idle(10, &cfg), None);
    assert_eq!(segmenter.flush_idle(11, &cfg), Some(b"b".to_vec()));
}

#[test]
fn a_clock_that_went_back_flushes_nothing() {
    let cfg = config(FrameSegmentationMode::Timeout, 10, FrameDelimiter::AnyNewline);
    let mut segmenter = FrameSegmenter::new(0);
    segmenter.push(b"x", 100, &cfg);
    assert_eq!(segmenter.flush_idle(50, &cfg), None);
}

#[test]
fn framing_loses_and_invents_nothing() {
    let cfg = config(FrameSegmentationMode::Delimiter, 10, FrameDelimiter::Custom(b"ab".to_vec()));
    let mut segmenter = FrameSegmenter::new(0);
    let input = b"xxabyabababzza".to_vec();
    let frames = segmenter.push(&input, 0, &cfg);
    let mut joined: Vec<u8> = frames.concat();
    joined.extend_from_slice(&segmenter.buffer);
    assert_eq!(joined, input);
    assert_eq!(frames, vec![b"xxab".to_vec(), b"yab".to_vec(), b"ab".to_vec(), b"ab".to_vec()]);
    assert_eq!(segmenter.buffer, b"zza".to_vec());
}

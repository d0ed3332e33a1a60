//! The frame segmentation engine: it gathers the bytes read from the line and
//! decides when a run of them is a finished frame.
//!
//! A frame ends with a delimiter, where the mode scans for delimiters, or
//! with a silence on the line that has lasted longer than the timeout, where
//! the mode honours timeouts. Time is counted in milliseconds on a clock that
//! never goes back; where it starts is the caller's choice.

use crate::delimiter::{
    find_any_newline,
    find_delimiter,
    first_line_ending,
    first_occurrence,
    is_first_line_break,
    is_line_break,
    lemma_first_line_ending_is,
    CR,
    LF,
};
use crate::types::{FrameDelimiterView, FrameSegmentationConfig, FrameSegmentationConfigView};
use vstd::prelude::*;
use vstd::slice::{slice_subrange, slice_to_vec};

verus! {

/// The length of the first frame of `data`: the bytes up to and including
/// the first delimiter. There is none where `data` holds no delimiter.
pub open spec fn first_frame_len(data: Seq<u8>, delimiter: FrameDelimiterView) -> Option<int> {
    if delimiter is AnyNewline {
        match first_line_ending(data) {
            Some((at, len)) => Some(at + len),
            None => None,
        }
    } else {
        match first_occurrence(data, delimiter.pattern()) {
            Some(at) => Some(at + delimiter.pattern().len()),
            None => None,
        }
    }
}

/// The finished frames of `data`, in the order of their bytes. Each frame
/// ends with its delimiter; the scan for the next one starts behind it.
pub open spec fn frames_of(data: Seq<u8>, delimiter: FrameDelimiterView) -> Seq<Seq<u8>>
    decreases data.len(),
{
    match first_frame_len(data, delimiter) {
        Some(len) => if 0 < len <= data.len() {
            seq![data.subrange(0, len)] + frames_of(
                data.subrange(len, data.len() as int),
                delimiter,
            )
        } else {
            Seq::empty()
        },
        None => Seq::empty(),
    }
}

/// The bytes of `data` behind its last finished frame.
pub open spec fn remainder_of(data: Seq<u8>, delimiter: FrameDelimiterView) -> Seq<u8>
    decreases data.len(),
{
    match first_frame_len(data, delimiter) {
        Some(len) => if 0 < len <= data.len() {
            remainder_of(data.subrange(len, data.len() as int), delimiter)
        } else {
            data
        },
        None => data,
    }
}

/// The byte sequences that a sequence of vectors holds.
pub open spec fn frames_view(frames: Seq<Vec<u8>>) -> Seq<Seq<u8>> {
    frames.map_values(|frame: Vec<u8>| frame@)
}

/// Whether the buffered bytes are due as a frame because the line has been
/// silent for longer than the timeout.
pub open spec fn idle_flush_due(
    buffered: Seq<u8>,
    last_data_ms: u64,
    now_ms: u64,
    config: FrameSegmentationConfigView,
) -> bool {
    &&& config.mode.spec_honours_timeout()
    &&& buffered.len() > 0
    &&& now_ms - last_data_ms > config.timeout_ms
}

/// Where `data` holds a delimiter, the first frame is not empty and lies
/// within `data`.
pub proof fn lemma_first_frame_len_bounds(data: Seq<u8>, delimiter: FrameDelimiterView)
    ensures
        first_frame_len(data, delimiter) matches Some(len) ==> 0 < len <= data.len(),
{
}

/// The accumulation buffer and the time of the last byte.
pub struct FrameSegmenter {
    /// The bytes read from the line that no frame holds yet.
    pub buffer: Vec<u8>,
    /// When the last byte arrived, in milliseconds.
    pub last_data_ms: u64,
}

impl FrameSegmenter {
    /// An empty buffer, with `now_ms` as the time of the last byte.
    pub fn new(now_ms: u64) -> (segmenter: Self)
        ensures
            segmenter.buffer@ == Seq::<u8>::empty(),
            segmenter.last_data_ms == now_ms,
    {
        FrameSegmenter { buffer: Vec::new(), last_data_ms: now_ms }
    }

    /// The length of the first frame in the buffer from `start` on, under
    /// `pattern` or, where `any_newline` holds, under the any-newline
    /// delimiter.
    fn next_frame_len(&self, start: usize, any_newline: bool, pattern: &Vec<u8>) -> (len: Option<
        usize,
    >)
        requires
            start <= self.buffer@.len(),
        ensures
            any_newline ==> (match len {
                Some(n) => first_frame_len(
                    self.buffer@.subrange(start as int, self.buffer@.len() as int),
                    FrameDelimiterView::AnyNewline,
                ) == Some(n as int),
                None => first_frame_len(
                    self.buffer@.subrange(start as int, self.buffer@.len() as int),
                    FrameDelimiterView::AnyNewline,
                ) is None,
            }),
            !any_newline ==> (match len {
                Some(n) => first_occurrence(
                    self.buffer@.subrange(start as int, self.buffer@.len() as int),
                    pattern@,
                ) == Some(n - pattern@.len()),
                None => first_occurrence(
                    self.buffer@.subrange(start as int, self.buffer@.len() as int),
                    pattern@,
                ) is None,
            }),
            len matches Some(n) ==> 0 < n && start + n <= self.buffer@.len(),
    {
        let rest = slice_subrange(self.buffer.as_slice(), start, self.buffer.len());
        if any_newline {
            match find_any_newline(rest) {
                Some((at, n)) => Some(at + n),
                None => None,
            }
        } else {
            match find_delimiter(rest, pattern.as_slice()) {
                Some(at) => Some(at + pattern.len()),
                None => None,
            }
        }
    }

    /// Takes `bytes` into the buffer at the time `now_ms` and hands out the
    /// frames that are finished by then.
    ///
    /// In a mode that scans for delimiters, every frame that the buffer
    /// holds after `bytes` went in is handed out, in order, and the bytes
    /// behind the last delimiter stay. In timeout mode nothing is handed
    /// out.
    pub fn push(&mut self, bytes: &[u8], now_ms: u64, config: &FrameSegmentationConfig) -> (frames:
        Vec<Vec<u8>>)
        ensures
            final(self).last_data_ms == now_ms,
            config.mode.spec_scans_delimiters() ==> frames_view(frames@) == frames_of(
                old(self).buffer@ + bytes@,
                config.delimiter@,
            ),
            config.mode.spec_scans_delimiters() ==> final(self).buffer@ == remainder_of(
                old(self).buffer@ + bytes@,
                config.delimiter@,
            ),
            !config.mode.spec_scans_delimiters() ==> frames@.len() == 0,
            !config.mode.spec_scans_delimiters() ==> final(self).buffer@ == old(self).buffer@
                + bytes@,
    {
        self.buffer.extend_from_slice(bytes);
        self.last_data_ms = now_ms;
        let mut frames: Vec<Vec<u8>> = Vec::new();
        if !config.mode.scans_delimiters() {
            return frames;
        }
        let any_newline = config.delimiter.is_any_newline();
        let pattern = config.delimiter.to_bytes();
        let ghost all = self.buffer@;
        let ghost delimiter = config.delimiter@;
        let mut start: usize = 0;
        let total = self.buffer.len();
        assert(all.subrange(0, all.len() as int) =~= all);
        loop
            invariant_except_break
                frames_of(all, delimiter) == frames_view(frames@) + frames_of(
                    all.subrange(start as int, all.len() as int),
                    delimiter,
                ),
                remainder_of(all, delimiter) == remainder_of(
                    all.subrange(start as int, all.len() as int),
                    delimiter,
                ),
            invariant
                self.buffer@ == all,
                self.last_data_ms == now_ms,
                start <= all.len(),
                total == all.len(),
                delimiter == config.delimiter@,
                any_newline == (delimiter is AnyNewline),
                pattern@ == delimiter.pattern(),
            ensures
                frames_of(all, delimiter) == frames_view(frames@),
                remainder_of(all, delimiter) == all.subrange(start as int, all.len() as int),
            decreases all.len() - start,
        {
            let ghost rest = all.subrange(start as int, all.len() as int);
            match self.next_frame_len(start, any_newline, &pattern) {
                Some(len) => {
                    let frame = slice_to_vec(
                        slice_subrange(self.buffer.as_slice(), start, start + len),
                    );
                    proof {
                        assert(rest.subrange(0, len as int) =~= frame@);
                        assert(rest.subrange(len as int, rest.len() as int) =~= all.subrange(
                            start + len,
                            all.len() as int,
                        ));
                    }
                    frames.push(frame);
                    start = start + len;
                },
                None => {
                    break ;
                },
            }
        }
        assert(all == old(self).buffer@ + bytes@);
        if start > 0 {
            let remainder = slice_to_vec(
                slice_subrange(self.buffer.as_slice(), start, self.buffer.len()),
            );
            self.buffer = remainder;
        }
        frames
    }

    /// Hands out the buffered bytes as one frame where the line has been
    /// silent for longer than the timeout at the time `now_ms`: the mode
    /// honours timeouts, the buffer is not empty, and more than
    /// `config.timeout_ms` milliseconds have passed since the last byte.
    /// Otherwise nothing is handed out and the buffer stays as it is.
    pub fn flush_idle(&mut self, now_ms: u64, config: &FrameSegmentationConfig) -> (frame: Option<
        Vec<u8>,
    >)
        ensures
            final(self).last_data_ms == old(self).last_data_ms,
            idle_flush_due(old(self).buffer@, old(self).last_data_ms, now_ms, config@) ==> {
                &&& frame matches Some(bytes)
                &&& bytes@ == old(self).buffer@
                &&& final(self).buffer@ == Seq::<u8>::empty()
            },
            !idle_flush_due(old(self).buffer@, old(self).last_data_ms, now_ms, config@) ==> {
                &&& frame is None
                &&& final(self).buffer@ == old(self).buffer@
            },
    {
        if config.mode.honours_timeout() && self.buffer.len() > 0 && now_ms > self.last_data_ms
            && now_ms - self.last_data_ms > config.timeout_ms {
            let mut frame: Vec<u8> = Vec::new();
            std::mem::swap(&mut frame, &mut self.buffer);
            Some(frame)
        } else {
            None
        }
    }
}


/// The number of bytes in all of `frames`.
pub open spec fn total_len(frames: Seq<Seq<u8>>) -> int
    decreases frames.len(),
{
    if frames.len() == 0 {
        0
    } else {
        total_len(frames.drop_last()) + frames.last().len()
    }
}

/// The bytes of all of `frames`, one frame after the other.
pub open spec fn joined(frames: Seq<Seq<u8>>) -> Seq<u8>
    decreases frames.len(),
{
    if frames.len() == 0 {
        Seq::empty()
    } else {
        joined(frames.drop_last()) + frames.last()
    }
}

/// Frames put in front of others join to the first followed by the join of
/// the others.
pub proof fn lemma_joined_prepend(first: Seq<u8>, others: Seq<Seq<u8>>)
    ensures
        joined(seq![first] + others) == first + joined(others),
        total_len(seq![first] + others) == first.len() + total_len(others),
    decreases others.len(),
{
    let all = seq![first] + others;
    if others.len() == 0 {
        assert(all.drop_last() =~= Seq::<Seq<u8>>::empty());
        assert(others =~= Seq::<Seq<u8>>::empty());
    } else {
        lemma_joined_prepend(first, others.drop_last());
        assert(all.drop_last() =~= seq![first] + others.drop_last());
    }
}

/// Framing loses and invents nothing: the finished frames of `data`,
/// followed by what stays behind them, are `data`.
pub proof fn lemma_framing_conserves(data: Seq<u8>, delimiter: FrameDelimiterView)
    ensures
        joined(frames_of(data, delimiter)) + remainder_of(data, delimiter) == data,
        total_len(frames_of(data, delimiter)) + remainder_of(data, delimiter).len() == data.len(),
    decreases data.len(),
{
    match first_frame_len(data, delimiter) {
        Some(len) => {
            if 0 < len <= data.len() {
                let first = data.subrange(0, len);
                let rest = data.subrange(len, data.len() as int);
                lemma_framing_conserves(rest, delimiter);
                lemma_joined_prepend(first, frames_of(rest, delimiter));
                assert(joined(frames_of(data, delimiter)) + remainder_of(data, delimiter) =~= first
                    + (joined(frames_of(rest, delimiter)) + remainder_of(rest, delimiter)));
            }
        },
        None => {},
    }
}

/// What stays behind the finished frames holds no delimiter.
pub proof fn lemma_remainder_has_no_frame(data: Seq<u8>, delimiter: FrameDelimiterView)
    ensures
        first_frame_len(remainder_of(data, delimiter), delimiter) is None,
    decreases data.len(),
{
    lemma_first_frame_len_bounds(data, delimiter);
    match first_frame_len(data, delimiter) {
        Some(len) => {
            lemma_remainder_has_no_frame(data.subrange(len, data.len() as int), delimiter);
        },
        None => {},
    }
}

/// The first frames of a sequence of frames hold no more bytes than all of
/// them.
pub proof fn lemma_total_len_prefix(frames: Seq<Seq<u8>>, count: int)
    requires
        0 <= count <= frames.len(),
    ensures
        0 <= total_len(frames.subrange(0, count)) <= total_len(frames),
        count < frames.len() ==> total_len(frames.subrange(0, count)) + frames[count].len()
            <= total_len(frames),
    decreases frames.len() - count,
{
    if count == frames.len() {
        assert(frames.subrange(0, count) =~= frames);
        lemma_total_len_nonnegative(frames);
    } else {
        lemma_total_len_prefix(frames, count + 1);
        assert(frames.subrange(0, count + 1).drop_last() =~= frames.subrange(0, count));
        lemma_total_len_nonnegative(frames.subrange(0, count));
    }
}

/// No sequence of frames holds fewer than no bytes.
pub proof fn lemma_total_len_nonnegative(frames: Seq<Seq<u8>>)
    ensures
        0 <= total_len(frames),
    decreases frames.len(),
{
    if frames.len() > 0 {
        lemma_total_len_nonnegative(frames.drop_last());
    }
}

/// A carriage return directly followed by a line feed is one line ending.
/// Where the first line ending of `data` is such a pair, it is reported
/// with the length 2, the first frame ends behind the line feed, and the
/// scan for the next frame starts there: the line feed ends no frame of its
/// own. Any other line ending has the length 1.
pub proof fn lemma_crlf_is_one_boundary(data: Seq<u8>)
    ensures
        first_line_ending(data) matches Some((at, len)) ==> {
            &&& is_first_line_break(data, at)
            &&& len == 2 <==> data[at] == CR && at + 1 < data.len() && data[at + 1] == LF
            &&& len == 1 || len == 2
            &&& frames_of(data, FrameDelimiterView::AnyNewline) == seq![
                data.subrange(0, at + len),
            ] + frames_of(
                data.subrange(at + len, data.len() as int),
                FrameDelimiterView::AnyNewline,
            )
        },
{
    lemma_first_frame_len_bounds(data, FrameDelimiterView::AnyNewline);
}

/// Bytes without a line ending, then a carriage return and a line feed,
/// then any bytes: the first frame is the bytes up to and including the
/// line feed, and the frames that follow are those of the bytes behind
/// it. The pair is never two line endings of length 1.
pub proof fn lemma_crlf_ends_one_frame(head: Seq<u8>, tail: Seq<u8>)
    requires
        forall|at: int| 0 <= at < head.len() ==> !is_line_break(#[trigger] head[at]),
    ensures
        first_line_ending(head + seq![CR, LF] + tail) == Some((head.len() as int, 2int)),
        frames_of(head + seq![CR, LF] + tail, FrameDelimiterView::AnyNewline) == seq![
            head + seq![CR, LF],
        ] + frames_of(tail, FrameDelimiterView::AnyNewline),
{
    let data = head + seq![CR, LF] + tail;
    let at = head.len() as int;
    lemma_first_line_ending_is(data, at);
    assert(data.subrange(0, at + 2) =~= head + seq![CR, LF]);
    assert(data.subrange(at + 2, data.len() as int) =~= tail);
}

} // verus!

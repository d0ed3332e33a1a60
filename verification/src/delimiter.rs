//! Scanning a byte buffer for frame boundaries.
//!
//! A boundary is either one occurrence of a fixed, non-empty byte pattern or
//! one line ending, where a line ending is a carriage return, a line feed, or
//! a carriage return directly followed by a line feed.

use vstd::prelude::*;

verus! {

/// Carriage return.
pub const CR: u8 = 0x0D;

/// Line feed.
pub const LF: u8 = 0x0A;

/// Whether `delimiter` lies in `data` at offset `at`.
pub open spec fn occurs_at(data: Seq<u8>, delimiter: Seq<u8>, at: int) -> bool {
    &&& 0 <= at
    &&& at + delimiter.len() <= data.len()
    &&& data.subrange(at, at + delimiter.len()) == delimiter
}

/// Whether `at` is the smallest offset at which the non-empty `delimiter`
/// lies in `data`.
pub open spec fn is_first_occurrence(data: Seq<u8>, delimiter: Seq<u8>, at: int) -> bool {
    &&& delimiter.len() > 0
    &&& occurs_at(data, delimiter, at)
    &&& forall|earlier: int| 0 <= earlier < at ==> !occurs_at(data, delimiter, earlier)
}

/// The smallest offset at which `delimiter` lies in `data`. There is none
/// when `delimiter` is empty or does not occur.
pub open spec fn first_occurrence(data: Seq<u8>, delimiter: Seq<u8>) -> Option<int> {
    if exists|at: int| is_first_occurrence(data, delimiter, at) {
        Some(choose|at: int| is_first_occurrence(data, delimiter, at))
    } else {
        None
    }
}

/// Whether `byte` is a carriage return or a line feed.
pub open spec fn is_line_break(byte: u8) -> bool {
    byte == CR || byte == LF
}

/// Whether `at` is the offset of the first carriage return or line feed of
/// `data`.
pub open spec fn is_first_line_break(data: Seq<u8>, at: int) -> bool {
    &&& 0 <= at < data.len()
    &&& is_line_break(data[at])
    &&& forall|earlier: int| 0 <= earlier < at ==> !is_line_break(#[trigger] data[earlier])
}

/// The length of the line ending that starts at `at`: 2 for a carriage return
/// directly followed by a line feed, else 1.
pub open spec fn line_ending_len(data: Seq<u8>, at: int) -> int {
    if data[at] == CR && at + 1 < data.len() && data[at + 1] == LF {
        2
    } else {
        1
    }
}

/// The first line ending of `data`, as its offset and its length.
pub open spec fn first_line_ending(data: Seq<u8>) -> Option<(int, int)> {
    if exists|at: int| is_first_line_break(data, at) {
        let at = choose|at: int| is_first_line_break(data, at);
        Some((at, line_ending_len(data, at)))
    } else {
        None
    }
}

/// Two offsets that both are the first occurrence are one offset.
pub proof fn lemma_first_occurrence_unique(data: Seq<u8>, delimiter: Seq<u8>, a: int, b: int)
    requires
        is_first_occurrence(data, delimiter, a),
        is_first_occurrence(data, delimiter, b),
    ensures
        a == b,
{
}

/// An offset that is the first occurrence is what `first_occurrence` gives.
pub proof fn lemma_first_occurrence_is(data: Seq<u8>, delimiter: Seq<u8>, at: int)
    requires
        is_first_occurrence(data, delimiter, at),
    ensures
        first_occurrence(data, delimiter) == Some(at),
{
    let chosen = choose|c: int| is_first_occurrence(data, delimiter, c);
    lemma_first_occurrence_unique(data, delimiter, at, chosen);
}

/// Where no offset holds the delimiter, or the delimiter is empty,
/// `first_occurrence` gives nothing.
pub proof fn lemma_first_occurrence_none(data: Seq<u8>, delimiter: Seq<u8>)
    requires
        delimiter.len() == 0 || forall|at: int| !occurs_at(data, delimiter, at),
    ensures
        first_occurrence(data, delimiter) is None,
{
}

/// An offset that is the first line break is where `first_line_ending` starts.
pub proof fn lemma_first_line_ending_is(data: Seq<u8>, at: int)
    requires
        is_first_line_break(data, at),
    ensures
        first_line_ending(data) == Some((at, line_ending_len(data, at))),
{
}

/// Data without a carriage return or line feed has no line ending.
pub proof fn lemma_first_line_ending_none(data: Seq<u8>)
    requires
        forall|at: int| 0 <= at < data.len() ==> !is_line_break(#[trigger] data[at]),
    ensures
        first_line_ending(data) is None,
{
}

/// Whether `delimiter` lies in `data` at offset `at`.
fn matches_at(data: &[u8], delimiter: &[u8], at: usize) -> (found: bool)
    requires
        at + delimiter.len() <= data.len(),
    ensures
        found == occurs_at(data@, delimiter@, at as int),
{
    let mut k: usize = 0;
    while k < delimiter.len()
        invariant
            k <= delimiter.len(),
            at + delimiter.len() <= data.len(),
            forall|j: int| 0 <= j < k ==> data@[at + j] == delimiter@[j],
        decreases delimiter.len() - k,
    {
        if data[at + k] != delimiter[k] {
            return false;
        }
        k += 1;
    }
    assert(data@.subrange(at as int, at + delimiter.len()) =~= delimiter@);
    true
}

/// The first offset at which `delimiter` occurs in `data` as a contiguous
/// run of bytes. There is none when `delimiter` is empty, is longer than
/// `data`, or does not occur.
pub fn find_delimiter(data: &[u8], delimiter: &[u8]) -> (found: Option<usize>)
    ensures
        match found {
            Some(at) => is_first_occurrence(data@, delimiter@, at as int),
            None => delimiter@.len() == 0 || forall|at: int| !occurs_at(data@, delimiter@, at),
        },
        match found {
            Some(at) => first_occurrence(data@, delimiter@) == Some(at as int),
            None => first_occurrence(data@, delimiter@) is None,
        },
{
    if delimiter.len() == 0 || data.len() < delimiter.len() {
        proof {
            lemma_first_occurrence_none(data@, delimiter@);
        }
        return None;
    }
    let last: usize = data.len() - delimiter.len();
    let mut at: usize = 0;
    while at <= last
        invariant
            delimiter.len() > 0,
            last + delimiter.len() == data.len(),
            at <= last + 1,
            forall|earlier: int| 0 <= earlier < at ==> !occurs_at(data@, delimiter@, earlier),
        decreases last + 1 - at,
    {
        if matches_at(data, delimiter, at) {
            proof {
                lemma_first_occurrence_is(data@, delimiter@, at as int);
            }
            return Some(at);
        }
        at += 1;
    }
    proof {
        lemma_first_occurrence_none(data@, delimiter@);
    }
    None
}

/// The first line ending of `data`, as its offset and its length. A carriage
/// return directly followed by a line feed is one line ending of length 2; a
/// carriage return or a line feed alone is one of length 1.
pub fn find_any_newline(data: &[u8]) -> (found: Option<(usize, usize)>)
    ensures
        match found {
            Some((at, len)) => is_first_line_break(data@, at as int) && len == line_ending_len(
                data@,
                at as int,
            ),
            None => forall|at: int| 0 <= at < data@.len() ==> !is_line_break(#[trigger] data@[at]),
        },
        match found {
            Some((at, len)) => first_line_ending(data@) == Some((at as int, len as int)),
            None => first_line_ending(data@) is None,
        },
{
    let mut at: usize = 0;
    while at < data.len()
        invariant
            at <= data.len(),
            forall|earlier: int| 0 <= earlier < at ==> !is_line_break(#[trigger] data@[earlier]),
        decreases data.len() - at,
    {
        let byte = data[at];
        if byte == CR {
            proof {
                lemma_first_line_ending_is(data@, at as int);
            }
            if at + 1 < data.len() && data[at + 1] == LF {
                return Some((at, 2));
            }
            return Some((at, 1));
        } else if byte == LF {
            proof {
                lemma_first_line_ending_is(data@, at as int);
            }
            return Some((at, 1));
        }
        at += 1;
    }
    proof {
        lemma_first_line_ending_none(data@);
    }
    None
}

} // verus!

//! Version numbers of the form `major.minor.patch`, with or without a
//! leading `v`, and their order.

use crate::text::collect_chars;
use std::cmp::Ordering;
use vstd::prelude::*;

verus! {

/// `text` without the `v`s it starts with.
pub open spec fn without_leading_v(text: Seq<char>) -> Seq<char>
    decreases text.len(),
{
    if text.len() > 0 && text[0] == 'v' {
        without_leading_v(text.drop_first())
    } else {
        text
    }
}

/// The offset of the first `separator` in `text`, or the length of `text`
/// where there is none.
pub open spec fn first_index_of(text: Seq<char>, separator: char) -> int
    decreases text.len(),
{
    if text.len() == 0 || text[0] == separator {
        0
    } else {
        1 + first_index_of(text.drop_first(), separator)
    }
}

/// The fields of `text` that `separator` divides, in order. A text
/// without the separator is one field.
pub open spec fn fields_of(text: Seq<char>, separator: char) -> Seq<Seq<char>>
    decreases text.len(),
{
    let at = first_index_of(text, separator);
    if 0 <= at < text.len() {
        seq![text.subrange(0, at)] + fields_of(
            text.subrange(at + 1, text.len() as int),
            separator,
        )
    } else {
        seq![text]
    }
}

/// Whether every character of `text` is a decimal digit.
pub open spec fn all_digits(text: Seq<char>) -> bool {
    forall|at: int| 0 <= at < text.len() ==> '0' <= #[trigger] text[at] <= '9'
}

/// The number that the decimal digits `digits` write down.
pub open spec fn digits_value(digits: Seq<char>) -> int
    decreases digits.len(),
{
    if digits.len() == 0 {
        0
    } else {
        10 * digits_value(digits.drop_last()) + (digits.last() as int - '0' as int)
    }
}

/// The number that `text` writes down: one or more decimal digits, after
/// an optional plus sign, whose value fits in 32 bits.
pub open spec fn parsed_number(text: Seq<char>) -> Option<u32> {
    let digits = if text.len() > 0 && text[0] == '+' {
        text.drop_first()
    } else {
        text
    };
    if digits.len() > 0 && all_digits(digits) && digits_value(digits) <= u32::MAX {
        Some(digits_value(digits) as u32)
    } else {
        None
    }
}

/// The version that `text` writes down: after the `v`s it starts with,
/// three numbers divided by two dots.
pub open spec fn parsed_version(text: Seq<char>) -> Option<(u32, u32, u32)> {
    let fields = fields_of(without_leading_v(text), '.');
    if fields.len() == 3 && parsed_number(fields[0]) is Some && parsed_number(fields[1]) is Some
        && parsed_number(fields[2]) is Some {
        Some(
            (
                parsed_number(fields[0]).unwrap(),
                parsed_number(fields[1]).unwrap(),
                parsed_number(fields[2]).unwrap(),
            ),
        )
    } else {
        None
    }
}

/// Whether the version `a` comes before the version `b`: by the major
/// number, then the minor number, then the patch number.
pub open spec fn version_before(a: (u32, u32, u32), b: (u32, u32, u32)) -> bool {
    a.0 < b.0 || (a.0 == b.0 && (a.1 < b.1 || (a.1 == b.1 && a.2 < b.2)))
}

/// A text of digits is worth at least as much as any text it starts with.
pub proof fn lemma_digits_value_grows(digits: Seq<char>, count: int)
    requires
        all_digits(digits),
        0 <= count <= digits.len(),
    ensures
        0 <= digits_value(digits.subrange(0, count)) <= digits_value(digits),
    decreases digits.len() - count,
{
    if count == digits.len() {
        assert(digits.subrange(0, count) =~= digits);
        lemma_digits_value_nonnegative(digits);
    } else {
        lemma_digits_value_grows(digits, count + 1);
        assert(digits.subrange(0, count + 1).drop_last() =~= digits.subrange(0, count));
        lemma_digits_value_nonnegative(digits.subrange(0, count));
    }
}

/// A text of digits is worth no less than nothing.
pub proof fn lemma_digits_value_nonnegative(digits: Seq<char>)
    requires
        all_digits(digits),
    ensures
        0 <= digits_value(digits),
    decreases digits.len(),
{
    if digits.len() > 0 {
        lemma_digits_value_nonnegative(digits.drop_last());
    }
}

/// The number that the characters of `text` from `from` up to `to` write
/// down.
fn parse_number(text: &Vec<char>, from: usize, to: usize) -> (number: Option<u32>)
    requires
        from <= to <= text@.len(),
    ensures
        number == parsed_number(text@.subrange(from as int, to as int)),
{
    let ghost field = text@.subrange(from as int, to as int);
    let mut at: usize = from;
    if at < to && text[at] == '+' {
        at += 1;
    }
    let first: usize = at;
    let ghost digits = text@.subrange(first as int, to as int);
    if first == to {
        return None;
    }
    let mut value: u64 = 0;
    while at < to
        invariant
            from <= first <= at <= to,
            first < to,
            to <= text@.len(),
            field == text@.subrange(from as int, to as int),
            digits == text@.subrange(first as int, to as int),
            digits == if field.len() > 0 && field[0] == '+' {
                field.drop_first()
            } else {
                field
            },
            all_digits(digits.subrange(0, at - first)),
            value == digits_value(digits.subrange(0, at - first)),
            value <= u32::MAX,
        decreases to - at,
    {
        let c = text[at];
        let ghost shorter = digits.subrange(0, at - first);
        let ghost longer = digits.subrange(0, at - first + 1);
        proof {
            assert(longer.drop_last() =~= shorter);
            assert(longer.last() == c);
        }
        if c < '0' || c > '9' {
            return None;
        }
        let d: u64 = (c as u32 - '0' as u32) as u64;
        value = value * 10 + d;
        if value > 0xFFFF_FFFF {
            proof {
                if all_digits(digits) {
                    lemma_digits_value_grows(digits, at - first + 1);
                }
            }
            return None;
        }
        at += 1;
    }
    assert(digits.subrange(0, digits.len() as int) =~= digits);
    Some(value as u32)
}

/// The offset in `text` of the first character that is no `v`, or the
/// length of `text` where there is none.
pub fn skip_leading_v(text: &Vec<char>) -> (from: usize)
    ensures
        from <= text@.len(),
        text@.subrange(from as int, text@.len() as int) == without_leading_v(text@),
{
    let mut from: usize = 0;
    assert(text@.subrange(0, text@.len() as int) =~= text@);
    while from < text.len() && text[from] == 'v'
        invariant
            from <= text@.len(),
            without_leading_v(text@.subrange(from as int, text@.len() as int))
                == without_leading_v(text@),
        decreases text@.len() - from,
    {
        assert(text@.subrange(from as int, text@.len() as int).drop_first() =~= text@.subrange(
            from + 1,
            text@.len() as int,
        ));
        from += 1;
    }
    from
}

/// The offset of the first `separator` in `text` at or behind `from`, or
/// the length of `text` where there is none.
fn find_separator(text: &Vec<char>, from: usize, separator: char) -> (at: usize)
    requires
        from <= text@.len(),
    ensures
        from <= at <= text@.len(),
        at - from == first_index_of(text@.subrange(from as int, text@.len() as int), separator),
{
    let mut at: usize = from;
    while at < text.len() && text[at] != separator
        invariant
            from <= at <= text@.len(),
            first_index_of(text@.subrange(from as int, text@.len() as int), separator) == at
                - from + first_index_of(
                text@.subrange(at as int, text@.len() as int),
                separator,
            ),
        decreases text@.len() - at,
    {
        assert(text@.subrange(at as int, text@.len() as int).drop_first() =~= text@.subrange(
            at + 1,
            text@.len() as int,
        ));
        at += 1;
    }
    at
}

/// The version that `version` writes down: three numbers divided by dots,
/// as in `1.2.0`, after any number of leading `v`s, as in `v1.2.0`. Each
/// number is one or more decimal digits, after an optional plus sign, and
/// fits in 32 bits. There is none for any other text.
pub fn parse_version(version: &str) -> (parsed: Option<(u32, u32, u32)>)
    ensures
        parsed == parsed_version(version@),
{
    let text = collect_chars(version);
    let start = skip_leading_v(&text);
    let ghost body = text@.subrange(start as int, text@.len() as int);
    let first_dot = find_separator(&text, start, '.');
    if first_dot >= text.len() {
        assert(fields_of(body, '.') =~= seq![body]);
        return None;
    }
    let ghost tail = text@.subrange(first_dot + 1, text@.len() as int);
    assert(body.subrange(first_dot - start + 1, body.len() as int) =~= tail);
    assert(body.subrange(0, first_dot - start) =~= text@.subrange(
        start as int,
        first_dot as int,
    ));
    let second_dot = find_separator(&text, first_dot + 1, '.');
    if second_dot >= text.len() {
        assert(fields_of(tail, '.') =~= seq![tail]);
        return None;
    }
    let ghost rest = text@.subrange(second_dot + 1, text@.len() as int);
    assert(tail.subrange(second_dot - first_dot, tail.len() as int) =~= rest);
    assert(tail.subrange(0, second_dot - first_dot - 1) =~= text@.subrange(
        first_dot + 1,
        second_dot as int,
    ));
    let third_dot = find_separator(&text, second_dot + 1, '.');
    if third_dot < text.len() {
        proof {
            let beyond = rest.subrange(third_dot - second_dot, rest.len() as int);
            lemma_fields_not_empty(beyond, '.');
            assert(fields_of(rest, '.').len() == 1 + fields_of(beyond, '.').len());
            assert(fields_of(body, '.').len() == 1 + fields_of(tail, '.').len());
        }
        return None;
    }
    assert(fields_of(rest, '.') =~= seq![rest]);
    let major = parse_number(&text, start, first_dot);
    let minor = parse_number(&text, first_dot + 1, second_dot);
    let patch = parse_number(&text, second_dot + 1, text.len());
    match (major, minor, patch) {
        (Some(a), Some(b), Some(c)) => Some((a, b, c)),
        _ => None,
    }
}

/// Every text has at least one field.
pub proof fn lemma_fields_not_empty(text: Seq<char>, separator: char)
    ensures
        fields_of(text, separator).len() >= 1,
    decreases text.len(),
{
    let at = first_index_of(text, separator);
    if 0 <= at < text.len() {
        lemma_fields_not_empty(text.subrange(at + 1, text.len() as int), separator);
    }
}

/// The order of two versions, or nothing where one of the two texts writes
/// down no version. A version is greater than another by the major number,
/// then the minor number, then the patch number.
pub fn compare_versions(version_a: &str, version_b: &str) -> (order: Option<Ordering>)
    ensures
        match (parsed_version(version_a@), parsed_version(version_b@)) {
            (Some(a), Some(b)) => order == Some(
                if version_before(a, b) {
                    Ordering::Less
                } else if version_before(b, a) {
                    Ordering::Greater
                } else {
                    Ordering::Equal
                },
            ),
            _ => order is None,
        },
{
    let a = match parse_version(version_a) {
        Some(a) => a,
        None => {
            return None;
        },
    };
    let b = match parse_version(version_b) {
        Some(b) => b,
        None => {
            return None;
        },
    };
    if a.0 < b.0 || (a.0 == b.0 && (a.1 < b.1 || (a.1 == b.1 && a.2 < b.2))) {
        Some(Ordering::Less)
    } else if b.0 < a.0 || (b.0 == a.0 && (b.1 < a.1 || (b.1 == a.1 && b.2 < a.2))) {
        Some(Ordering::Greater)
    } else {
        Some(Ordering::Equal)
    }
}

} // verus!

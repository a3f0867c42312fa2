//! Reading numbers and fields out of text.

use vstd::prelude::*;

verus! {

/// Whether a character is a decimal digit.
pub open spec fn is_digit(c: char) -> bool {
    '0' <= c <= '9'
}

/// The number that a text of decimal digits denotes.
pub open spec fn decimal(digits: Seq<char>) -> nat
    decreases digits.len(),
{
    if digits.len() == 0 {
        0
    } else {
        decimal(digits.drop_last()) * 10 + (digits.last() as nat - '0' as nat) as nat
    }
}

/// The number that a text denotes, where it is one or more decimal digits
/// and nothing else, and the number is at most `max`.
pub open spec fn unsigned(text: Seq<char>, max: nat) -> Option<nat> {
    if text.len() > 0 && (forall|i: int| 0 <= i < text.len() ==> is_digit(#[trigger] text[i]))
        && decimal(text) <= max {
        Some(decimal(text))
    } else {
        None
    }
}

/// A text of decimal digits denotes at least what any text it starts with
/// denotes.
pub proof fn decimal_grows(digits: Seq<char>, n: int)
    requires
        0 <= n <= digits.len(),
    ensures
        decimal(digits.subrange(0, n)) <= decimal(digits),
    decreases digits.len() - n,
{
    if n < digits.len() {
        decimal_grows(digits, n + 1);
        let longer = digits.subrange(0, n + 1);
        assert(longer.drop_last() =~= digits.subrange(0, n));
    } else {
        assert(digits.subrange(0, n) =~= digits);
    }
}

/// Reads a text as an unsigned number of at most `max`.
pub fn parse_unsigned(text: &str, max: u64) -> (r: Option<u64>)
    ensures
        r matches Some(n) ==> unsigned(text@, max as nat) == Some(n as nat),
        r is None ==> unsigned(text@, max as nat) is None,
{
    let len = text.unicode_len();
    if len == 0 {
        return None;
    }
    let mut value: u64 = 0;
    let mut i: usize = 0;
    while i < len
        invariant
            i <= len,
            len == text@.len(),
            value <= max,
            value == decimal(text@.subrange(0, i as int)),
            forall|j: int| 0 <= j < i ==> is_digit(#[trigger] text@[j]),
        decreases len - i,
    {
        let c = text.get_char(i);
        if !(c >= '0' && c <= '9') {
            return None;
        }
        let digit: u64 = (c as u32 - '0' as u32) as u64;
        proof {
            let longer = text@.subrange(0, i + 1);
            assert(longer.drop_last() =~= text@.subrange(0, i as int));
            assert(longer.last() == c);
            decimal_grows(text@, i + 1);
        }
        value = match value.checked_mul(10) {
            Some(tens) => match tens.checked_add(digit) {
                Some(sum) => sum,
                None => return None,
            },
            None => return None,
        };
        if value > max {
            return None;
        }
        i += 1;
    }
    proof {
        assert(text@.subrange(0, len as int) =~= text@);
    }
    Some(value)
}

/// The fields of a text: what stands between its separators, in order. A
/// text without a separator is one field; a separator at either end, or two
/// in a row, bound an empty field.
pub open spec fn fields(text: Seq<char>, separator: char) -> Seq<Seq<char>>
    decreases text.len(),
{
    if text.len() == 0 {
        seq![Seq::<char>::empty()]
    } else {
        let before = fields(text.drop_last(), separator);
        if text.last() == separator {
            before.push(Seq::<char>::empty())
        } else {
            before.drop_last().push(before.last().push(text.last()))
        }
    }
}

/// A text has at least one field.
pub proof fn fields_are_some(text: Seq<char>, separator: char)
    ensures
        fields(text, separator).len() >= 1,
    decreases text.len(),
{
    if text.len() > 0 {
        fields_are_some(text.drop_last(), separator);
    }
}

/// The texts that a list of string slices holds.
pub open spec fn texts(pieces: Seq<&str>) -> Seq<Seq<char>> {
    pieces.map_values(|piece: &str| piece@)
}

/// Splits a text into its fields.
pub fn split<'a>(text: &'a str, separator: char) -> (pieces: Vec<&'a str>)
    ensures
        texts(pieces@) == fields(text@, separator),
{
    let len = text.unicode_len();
    let mut pieces: Vec<&'a str> = Vec::new();
    let mut start: usize = 0;
    let mut i: usize = 0;
    proof {
        assert(text@.subrange(0, 0) =~= Seq::<char>::empty());
        assert(texts(pieces@).push(text@.subrange(0, 0)) =~= seq![Seq::<char>::empty()]);
    }
    while i < len
        invariant
            start <= i <= len,
            len == text@.len(),
            fields(text@.subrange(0, i as int), separator) == texts(pieces@).push(
                text@.subrange(start as int, i as int),
            ),
        decreases len - i,
    {
        let c = text.get_char(i);
        proof {
            let longer = text@.subrange(0, i + 1);
            assert(longer.drop_last() =~= text@.subrange(0, i as int));
            assert(longer.last() == c);
            let before = texts(pieces@).push(text@.subrange(start as int, i as int));
            assert(before.drop_last() =~= texts(pieces@));
            assert(text@.subrange(start as int, i as int).push(c) =~= text@.subrange(
                start as int,
                i + 1,
            ));
        }
        if c == separator {
            let ghost old_pieces = pieces@;
            pieces.push(text.substring_char(start, i));
            proof {
                assert(texts(pieces@) =~= texts(old_pieces).push(
                    text@.subrange(start as int, i as int),
                ));
                assert(text@.subrange(i + 1, i + 1) =~= Seq::<char>::empty());
            }
            start = i + 1;
        }
        i += 1;
    }
    let ghost old_pieces = pieces@;
    pieces.push(text.substring_char(start, len));
    proof {
        assert(texts(pieces@) =~= texts(old_pieces).push(text@.subrange(start as int, len as int)));
        assert(text@.subrange(0, len as int) =~= text@);
    }
    pieces
}

} // verus!

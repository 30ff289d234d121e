//! Pixel lengths as style attributes write them: a numeral, with or without
//! the unit `px` and whatever follows it.

use crate::decimal::{i32_value, parse_i32};
use crate::text::{
    chars_of, first_piece, first_piece_of, last_piece, last_piece_of, split, split_on, views,
};
use vstd::prelude::*;

verus! {

/// The length that `s` writes: the numeral before the first `px`, or all of
/// `s` where no `px` occurs. `None` where that is no numeral of 32 bits.
pub open spec fn pixel_value(s: Seq<char>) -> Option<i32> {
    i32_value(first_piece(s, "px"@))
}

/// Every one of `fields` writes a length.
pub open spec fn all_pixel_values(fields: Seq<Seq<char>>) -> bool {
    forall|k: int| 0 <= k < fields.len() ==> (#[trigger] pixel_value(fields[k])) is Some
}

/// The fields of a style attribute that hold a pair of lengths: what follows
/// the last `outer`, then the last `inner`, cut at `between`.
pub open spec fn pair_fields(
    style: Seq<char>,
    outer: Seq<char>,
    inner: Seq<char>,
    between: Seq<char>,
) -> Seq<Seq<char>> {
    split(last_piece(last_piece(style, outer), inner), between)
}

/// The pair of lengths in a style attribute: the first two of its fields,
/// where there are at least two and every field writes a length.
pub open spec fn pixel_pair(
    style: Seq<char>,
    outer: Seq<char>,
    inner: Seq<char>,
    between: Seq<char>,
) -> Option<(i32, i32)> {
    let fields = pair_fields(style, outer, inner, between);
    if fields.len() >= 2 && all_pixel_values(fields) {
        Some((pixel_value(fields[0])->0, pixel_value(fields[1])->0))
    } else {
        None
    }
}

/// Reads a length from characters.
pub fn pixels_of(s: &Vec<char>) -> (value: Option<i32>)
    ensures
        value == pixel_value(s@),
{
    let unit = chars_of("px");
    let numeral = first_piece_of(s, &unit);
    parse_i32(&numeral)
}

/// Reads a length such as `250`, `250px` or `250px; top: 100px` (all three
/// give 250); `None` where `s` does not begin with a numeral of 32 bits that
/// ends at the first `px` or at the end of `s`.
pub fn try_parse_int(s: &str) -> (value: Option<i32>)
    ensures
        value == pixel_value(s@),
{
    let chars = chars_of(s);
    pixels_of(&chars)
}

/// Reads a length that the caller knows to be well written.
pub fn parse_int(s: &str) -> (value: i32)
    requires
        pixel_value(s@) is Some,
    ensures
        pixel_value(s@) == Some(value),
{
    try_parse_int(s).unwrap()
}

/// Reads the pair of lengths that a style attribute holds behind the markers
/// `outer` and `inner`, with `between` standing between the two.
pub fn read_pixel_pair(style: &str, outer: &str, inner: &str, between: &str) -> (pair: Option<
    (i32, i32),
>)
    ensures
        pair == pixel_pair(style@, outer@, inner@, between@),
{
    let chars = chars_of(style);
    let tail = last_piece_of(&chars, &chars_of(outer));
    let tail = last_piece_of(&tail, &chars_of(inner));
    let fields = split_on(&tail, &chars_of(between));
    let ghost written = pair_fields(style@, outer@, inner@, between@);
    let mut values: Vec<i32> = Vec::new();
    let mut k: usize = 0;
    while k < fields.len()
        invariant
            k <= fields.len(),
            views(fields@) == written,
            written == pair_fields(style@, outer@, inner@, between@),
            values.len() == k,
            forall|j: int| 0 <= j < k ==> pixel_value(written[j]) == Some(#[trigger] values[j]),
        decreases fields.len() - k,
    {
        match pixels_of(&fields[k]) {
            Some(value) => {
                values.push(value);
            },
            None => {
                assert(pixel_value(written[k as int]) is None);
                return None;
            },
        }
        k += 1;
    }
    assert(all_pixel_values(written)) by {
        assert forall|j: int| 0 <= j < written.len() implies (#[trigger] pixel_value(
            written[j],
        )) is Some by {
            assert(pixel_value(written[j]) == Some(values[j]));
        }
    }
    if values.len() >= 2 {
        Some((values[0], values[1]))
    } else {
        None
    }
}

} // verus!

//! Hex color parsing for scenario TOML (shared with render).

use vstd::prelude::*;

use crate::text::{chars_of, is_whitespace_spec, trim, trim_range};

verus! {

/// `s` without its leading `#` characters (`trim_start_matches('#')`).
pub open spec fn strip_hashes(s: Seq<char>) -> Seq<char>
    decreases s.len(),
{
    if s.len() > 0 && s[0] == '#' {
        strip_hashes(s.drop_first())
    } else {
        s
    }
}

pub open spec fn is_hex_digit_spec(c: char) -> bool {
    ('0' <= c <= '9') || ('a' <= c <= 'f') || ('A' <= c <= 'F')
}

pub open spec fn hex_value(c: char) -> int {
    if '0' <= c <= '9' {
        (c as u32) as int - 48
    } else if 'a' <= c <= 'f' {
        (c as u32) as int - 87
    } else {
        (c as u32) as int - 55
    }
}

/// The byte a two-character piece of `rrggbb` denotes: two hex digits, high
/// digit first; anything else denotes none.
pub open spec fn hex_pair_spec(a: char, b: char) -> Option<u8> {
    if is_hex_digit_spec(a) && is_hex_digit_spec(b) {
        Some((16 * hex_value(a) + hex_value(b)) as u8)
    } else {
        None
    }
}

pub open spec fn is_ascii_char(c: char) -> bool {
    (c as u32) < 128
}

/// What `parse_hex_color` gives: the text, trimmed and without leading `#`,
/// must be six ASCII characters that read as three hex pairs.
pub open spec fn parse_hex_color_spec(hex: Seq<char>) -> Option<[u8; 3]> {
    let s = strip_hashes(trim(hex));
    if s.len() == 6 && (forall|i: int| 0 <= i < 6 ==> is_ascii_char(#[trigger] s[i])) {
        match (hex_pair_spec(s[0], s[1]), hex_pair_spec(s[2], s[3]), hex_pair_spec(s[4], s[5])) {
            (Some(r), Some(g), Some(b)) => Some([r, g, b]),
            _ => None,
        }
    } else {
        None
    }
}

/// The inputs on which slicing the stripped text into byte pairs stays on
/// character boundaries (slicing in the middle of a character panics).
pub open spec fn hex_color_slices_on_boundaries(hex: Seq<char>) -> bool {
    let bytes = vstd::utf8::encode_utf8(strip_hashes(trim(hex)));
    bytes.len() == 6 ==> vstd::utf8::is_char_boundary(bytes, 2) && vstd::utf8::is_char_boundary(bytes, 4)
}

fn hex_value_exec(c: char) -> (v: u8)
    requires
        is_hex_digit_spec(c),
    ensures
        v == hex_value(c),
        v < 16,
{
    if '0' <= c && c <= '9' {
        (c as u32 - 48) as u8
    } else if 'a' <= c && c <= 'f' {
        (c as u32 - 87) as u8
    } else {
        (c as u32 - 55) as u8
    }
}

fn is_hex_digit(c: char) -> (b: bool)
    ensures
        b == is_hex_digit_spec(c),
{
    ('0' <= c && c <= '9') || ('a' <= c && c <= 'f') || ('A' <= c && c <= 'F')
}

fn hex_pair(a: char, b: char) -> (r: Option<u8>)
    ensures
        r == hex_pair_spec(a, b),
{
    if is_hex_digit(a) && is_hex_digit(b) {
        let hi = hex_value_exec(a);
        let lo = hex_value_exec(b);
        Some(16 * hi + lo)
    } else {
        None
    }
}

/// Parse `#rrggbb` or `rrggbb` into RGB bytes.
pub fn parse_hex_color(hex: &str) -> (r: Option<[u8; 3]>)
    requires
        hex_color_slices_on_boundaries(hex@),
    ensures
        r == parse_hex_color_spec(hex@),
{
    let s = chars_of(hex);
    let (a, b) = trim_range(&s, 0, s.len());
    proof {
        assert(s@.subrange(0, s.len() as int) =~= hex@);
    }
    let mut start = a;
    while start < b && s[start] == '#'
        invariant
            a <= start <= b <= s.len(),
            strip_hashes(s@.subrange(a as int, b as int)) == strip_hashes(
                s@.subrange(start as int, b as int),
            ),
        decreases b - start,
    {
        assert(s@.subrange(start as int, b as int).drop_first() =~= s@.subrange(
            start + 1,
            b as int,
        ));
        start += 1;
    }
    let ghost t = s@.subrange(start as int, b as int);
    assert(strip_hashes(t) == t);
    assert(strip_hashes(trim(hex@)) == t);
    if b - start != 6 {
        return None;
    }
    let mut i: usize = 0;
    while i < 6
        invariant
            i <= 6,
            start + 6 == b <= s.len(),
            t == s@.subrange(start as int, b as int),
            t == strip_hashes(trim(hex@)),
            forall|j: int| 0 <= j < i ==> is_ascii_char(#[trigger] t[j]),
        decreases 6 - i,
    {
        if (s[start + i] as u32) >= 128 {
            assert(!is_ascii_char(t[i as int]));
            return None;
        }
        i += 1;
    }
    let r = hex_pair(s[start], s[start + 1]);
    let g = hex_pair(s[start + 2], s[start + 3]);
    let bl = hex_pair(s[start + 4], s[start + 5]);
    match (r, g, bl) {
        (Some(r), Some(g), Some(bl)) => Some([r, g, bl]),
        _ => None,
    }
}

} // verus!

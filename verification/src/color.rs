//! The colour model: 8-bit RGB values, their hexadecimal notation and the distance between two of them.

use vstd::prelude::*;

verus! {

/// An RGB colour with 8 bits per channel.
#[derive(Clone, Copy, Debug, PartialEq, Eq, Structural)]
pub struct Color {
    pub r: u8,
    pub g: u8,
    pub b: u8,
}

/// The value of a hexadecimal digit, in either case; `None` for any other character.
pub open spec fn hex_digit_value(c: char) -> Option<int> {
    if '0' <= c <= '9' {
        Some(c as u32 - '0' as u32)
    } else if 'a' <= c <= 'f' {
        Some(c as u32 - 'a' as u32 + 10)
    } else if 'A' <= c <= 'F' {
        Some(c as u32 - 'A' as u32 + 10)
    } else {
        None
    }
}

/// Whether `digits` is exactly six hexadecimal digits.
pub open spec fn is_hex_triplet(digits: Seq<char>) -> bool {
    &&& digits.len() == 6
    &&& forall|i: int| 0 <= i < 6 ==> hex_digit_value(#[trigger] digits[i]) is Some
}

/// The byte written by the two hexadecimal digits `hi` and `lo`.
pub open spec fn hex_pair_value(hi: char, lo: char) -> int {
    16 * hex_digit_value(hi).unwrap() + hex_digit_value(lo).unwrap()
}

/// `text` without its leading `#`, if it has one. Only one `#` is taken off.
pub open spec fn strip_hash(text: Seq<char>) -> Seq<char> {
    if text.len() > 0 && text[0] == '#' {
        text.skip(1)
    } else {
        text
    }
}

/// The colour that `text` denotes: an optional `#`, then the six hexadecimal digits `RRGGBB`.
/// Anything else denotes no colour.
pub open spec fn parse_hex(text: Seq<char>) -> Option<Color> {
    let digits = strip_hash(text);
    if is_hex_triplet(digits) {
        Some(
            Color {
                r: hex_pair_value(digits[0], digits[1]) as u8,
                g: hex_pair_value(digits[2], digits[3]) as u8,
                b: hex_pair_value(digits[4], digits[5]) as u8,
            },
        )
    } else {
        None
    }
}

/// The value of the hexadecimal digit `c`, if it is one.
fn hex_digit(c: char) -> (v: Option<u8>)
    ensures
        match v {
            Some(d) => hex_digit_value(c) == Some(d as int) && d < 16,
            None => hex_digit_value(c) is None,
        },
{
    if '0' <= c && c <= '9' {
        Some((c as u32 - '0' as u32) as u8)
    } else if 'a' <= c && c <= 'f' {
        Some((c as u32 - 'a' as u32 + 10) as u8)
    } else if 'A' <= c && c <= 'F' {
        Some((c as u32 - 'A' as u32 + 10) as u8)
    } else {
        None
    }
}

/// The byte that the hexadecimal digits at `at` and `at + 1` of `chars` write, if both are digits.
fn hex_pair(chars: &Vec<char>, at: usize) -> (v: Option<u8>)
    requires
        at + 1 < chars.len(),
    ensures
        match v {
            Some(byte) => {
                &&& hex_digit_value(chars@[at as int]) is Some
                &&& hex_digit_value(chars@[at + 1]) is Some
                &&& byte as int == hex_pair_value(chars@[at as int], chars@[at + 1])
            },
            None => hex_digit_value(chars@[at as int]) is None || hex_digit_value(chars@[at + 1])
                is None,
        },
{
    match hex_digit(chars[at]) {
        Some(hi) => match hex_digit(chars[at + 1]) {
            Some(lo) => Some(16 * hi + lo),
            None => None,
        },
        None => None,
    }
}

/// The characters of `text`, in order.
pub fn chars_of(text: &str) -> (chars: Vec<char>)
    ensures
        chars@ == text@,
{
    let mut chars: Vec<char> = Vec::new();
    for c in it: text.chars()
        invariant
            it.seq() == text@,
            chars@ == text@.take(it.index()),
    {
        chars.push(c);
    }
    chars
}

impl Color {
    /// The squared Euclidean distance between `self` and `other` in RGB space.
    pub open spec fn spec_distance_squared(self, other: Color) -> int {
        (self.r - other.r) * (self.r - other.r) + (self.g - other.g) * (self.g - other.g) + (self.b
            - other.b) * (self.b - other.b)
    }

    /// Reads the colour written between `from` and `to` in `chars`.
    pub(crate) fn from_hex_chars(chars: &Vec<char>, from: usize, to: usize) -> (color: Option<Color>)
        requires
            from <= to <= chars@.len(),
        ensures
            color == parse_hex(chars@.subrange(from as int, to as int)),
    {
        let start: usize = if from < to && chars[from] == '#' {
            from + 1
        } else {
            from
        };
        if to - start != 6 {
            return None;
        }
        let ghost digits = strip_hash(chars@.subrange(from as int, to as int));
        assert forall|i: int| 0 <= i < 6 implies digits[i] == chars@[start + i] by {}
        let r = hex_pair(chars, start);
        let g = hex_pair(chars, start + 2);
        let b = hex_pair(chars, start + 4);
        match (r, g, b) {
            (Some(r), Some(g), Some(b)) => Some(Color { r, g, b }),
            _ => None,
        }
    }

    /// Reads a colour from its hexadecimal notation: an optional leading `#`, then exactly six
    /// hexadecimal digits, two for each of red, green and blue. Any other text gives `None`.
    pub fn from_hex(hex: &str) -> (color: Option<Color>)
        ensures
            color == parse_hex(hex@),
    {
        let chars = chars_of(hex);
        Color::from_hex_chars(&chars, 0, chars.len())
    }

    /// The squared Euclidean distance to `other`: the sum over the three channels of the
    /// squared difference. It is at most `3 * 255 * 255`.
    pub fn distance_squared(&self, other: &Color) -> (d: u32)
        ensures
            d == self.spec_distance_squared(*other),
            d <= 195075,
    {
        let dr: i32 = self.r as i32 - other.r as i32;
        let dg: i32 = self.g as i32 - other.g as i32;
        let db: i32 = self.b as i32 - other.b as i32;
        assert(0 <= dr * dr <= 65025) by (nonlinear_arith)
            requires
                -255 <= dr <= 255,
        ;
        assert(0 <= dg * dg <= 65025) by (nonlinear_arith)
            requires
                -255 <= dg <= 255,
        ;
        assert(0 <= db * db <= 65025) by (nonlinear_arith)
            requires
                -255 <= db <= 255,
        ;
        (dr * dr + dg * dg + db * db) as u32
    }
}

} // verus!

use bevy::color::{ColorToPacked, Srgba};
use vstd::prelude::*;
use vstd::string::StrSliceExecFns;

verus! {

/// An sRGB color with 8-bit channels; a channel value `k` stands for the
/// normalized intensity `k / 255`. Alpha takes part in no query.
#[derive(Clone, Copy, Debug, PartialEq, Eq, Hash, Structural)]
pub struct Color {
    pub red: u8,
    pub green: u8,
    pub blue: u8,
    pub alpha: u8,
}

/// Sum of the red, green and blue channels.
pub open spec fn channel_sum(c: Color) -> int {
    c.red as int + c.green as int + c.blue as int
}

/// Lightness score: the sum of the normalized channels, scaled by 256 and
/// truncated.
pub open spec fn lightness_of(c: Color) -> int {
    (256 * channel_sum(c)) / 255
}

pub open spec fn channel_diff(a: u8, b: u8) -> int {
    if a >= b {
        a - b
    } else {
        b - a
    }
}

/// Manhattan distance over red, green and blue of the normalized channels,
/// scaled by 256 and truncated.
pub open spec fn distance_of(a: Color, b: Color) -> int {
    (256 * (channel_diff(a.red, b.red) + channel_diff(a.green, b.green) + channel_diff(
        a.blue,
        b.blue,
    ))) / 255
}

impl Color {
    /// An opaque color from its three channels.
    pub fn rgb(red: u8, green: u8, blue: u8) -> (r: Color)
        ensures
            r == (Color { red, green, blue, alpha: 255 }),
    {
        Color { red, green, blue, alpha: 255 }
    }

    /// A color from its four channels.
    pub fn rgba(red: u8, green: u8, blue: u8, alpha: u8) -> (r: Color)
        ensures
            r == (Color { red, green, blue, alpha }),
    {
        Color { red, green, blue, alpha }
    }
}

/// Lightness score of a color, between 0 (black) and 768 (white).
pub fn lightness(color: &Color) -> (r: u32)
    ensures
        r == lightness_of(*color),
{
    let sum: u32 = color.red as u32 + color.green as u32 + color.blue as u32;
    (sum * 256) / 255
}

fn channel_distance(a: u8, b: u8) -> (r: u32)
    ensures
        r == channel_diff(a, b),
{
    if a >= b {
        (a - b) as u32
    } else {
        (b - a) as u32
    }
}

/// Manhattan distance between two colors, alpha ignored.
pub fn manhattan_distance(lhs: &Color, rhs: &Color) -> (r: u32)
    ensures
        r == distance_of(*lhs, *rhs),
{
    let sum: u32 = channel_distance(lhs.red, rhs.red) + channel_distance(lhs.green, rhs.green)
        + channel_distance(lhs.blue, rhs.blue);
    (sum * 256) / 255
}

pub open spec fn is_hex_digit(c: char) -> bool {
    ('0' as u32 <= c as u32 && c as u32 <= '9' as u32) || ('a' as u32 <= c as u32 && c as u32
        <= 'f' as u32) || ('A' as u32 <= c as u32 && c as u32 <= 'F' as u32)
}

pub open spec fn hex_digit_value(c: char) -> int {
    if '0' as u32 <= c as u32 && c as u32 <= '9' as u32 {
        c as u32 - '0' as u32
    } else if 'a' as u32 <= c as u32 && c as u32 <= 'f' as u32 {
        c as u32 - 'a' as u32 + 10
    } else {
        c as u32 - 'A' as u32 + 10
    }
}

/// The digits of a hex color: the text without one leading `#`, if it has one.
pub open spec fn hex_body(s: Seq<char>) -> Seq<char> {
    if s.len() > 0 && s[0] == '#' {
        s.drop_first()
    } else {
        s
    }
}

/// The accepted grammar: an optional `#`, then 3, 4, 6 or 8 hex digits of
/// either case (`RGB`, `RGBA`, `RRGGBB`, `RRGGBBAA`).
pub open spec fn is_hex_color(s: Seq<char>) -> bool {
    let b = hex_body(s);
    &&& (b.len() == 3 || b.len() == 4 || b.len() == 6 || b.len() == 8)
    &&& forall|i: int| 0 <= i < b.len() ==> is_hex_digit(#[trigger] b[i])
}

/// A one-digit channel: the digit repeated (`f` is `ff`).
pub open spec fn short_channel(b: Seq<char>, i: int) -> u8 {
    (17 * hex_digit_value(b[i])) as u8
}

/// A two-digit channel.
pub open spec fn long_channel(b: Seq<char>, i: int) -> u8 {
    (16 * hex_digit_value(b[i]) + hex_digit_value(b[i + 1])) as u8
}

/// The color that a text of the grammar denotes; alpha is 255 where the
/// text gives none.
pub open spec fn hex_color_value(s: Seq<char>) -> Color {
    let b = hex_body(s);
    if b.len() == 3 {
        Color {
            red: short_channel(b, 0),
            green: short_channel(b, 1),
            blue: short_channel(b, 2),
            alpha: 255,
        }
    } else if b.len() == 4 {
        Color {
            red: short_channel(b, 0),
            green: short_channel(b, 1),
            blue: short_channel(b, 2),
            alpha: short_channel(b, 3),
        }
    } else if b.len() == 6 {
        Color {
            red: long_channel(b, 0),
            green: long_channel(b, 2),
            blue: long_channel(b, 4),
            alpha: 255,
        }
    } else {
        Color {
            red: long_channel(b, 0),
            green: long_channel(b, 2),
            blue: long_channel(b, 4),
            alpha: long_channel(b, 6),
        }
    }
}

/// Relies on bevy's `Srgba::hex` (bevy_color 0.14), read back through
/// `ColorToPacked::to_u8_array`. `Srgba::hex` strips one leading `#`, then
/// decodes 3, 4, 6 or 8 bytes with `u16`/`u32::from_str_radix` in base 16,
/// repeating each digit of the short forms and taking alpha 255 where none is
/// given; any other length, or a digit that `from_str_radix` refuses, is an
/// error. The channels are stored as `k / 255` and `to_u8_array` rounds
/// `v * 255`, which gives back each `k` exactly. `from_str_radix` also lets a
/// leading `+` through, which is the one way to succeed outside the grammar.
#[verifier::external_body]
fn srgba_hex(text: &str) -> (r: Option<Color>)
    ensures
        is_hex_color(text@) ==> r == Some(hex_color_value(text@)),
        r is Some && !is_hex_color(text@) ==> hex_body(text@).len() > 0 && hex_body(text@)[0]
            == '+',
{
    Srgba::hex(text).ok().map(
        |c: Srgba|
            {
                let [red, green, blue, alpha] = c.to_u8_array();
                Color { red, green, blue, alpha }
            },
    )
}

/// Parses one hex color of the grammar of `is_hex_color`; `None` for any
/// other text.
pub fn parse_hex_color(text: &str) -> (r: Option<Color>)
    ensures
        r == (if is_hex_color(text@) {
            Some(hex_color_value(text@))
        } else {
            None::<Color>
        }),
{
    let n = text.unicode_len();
    let start: usize = if n > 0 && text.get_char(0) == '#' {
        1
    } else {
        0
    };
    assert(hex_body(text@) =~= text@.subrange(start as int, text@.len() as int));
    if start < n && text.get_char(start) == '+' {
        return None;
    }
    srgba_hex(text)
}

} // verus!

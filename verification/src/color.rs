//! How a picked colour is written down.

use crate::text::{push_decimal, push_hex_byte};
use vstd::prelude::*;

verus! {

/// The notations in which a picked colour can be copied.
#[derive(Debug, Clone, Copy, PartialEq, Eq, Structural)]
pub enum ColorFormat {
    Hex,
    Rgb,
    Oklab,
    Hsl,
}

/// The coordinates of a colour in the space of its notation, each in fixed
/// precision (`"62.80"`).
#[derive(Debug, Clone)]
pub struct ColorComponents {
    pub first: String,
    pub second: String,
    pub third: String,
}

/// The place of a notation in the list that the user chooses from.
pub open spec fn spec_color_format_index(format: ColorFormat) -> u32 {
    match format {
        ColorFormat::Hex => 0,
        ColorFormat::Rgb => 1,
        ColorFormat::Oklab => 2,
        ColorFormat::Hsl => 3,
    }
}

/// The notation at a place of that list; the first one for any other place.
pub open spec fn spec_color_format_at(index: u32) -> ColorFormat {
    if index == 1 {
        ColorFormat::Rgb
    } else if index == 2 {
        ColorFormat::Oklab
    } else if index == 3 {
        ColorFormat::Hsl
    } else {
        ColorFormat::Hex
    }
}

/// The place of a notation in the list that the user chooses from.
pub fn color_format_index(format: ColorFormat) -> (index: u32)
    ensures
        index == spec_color_format_index(format),
{
    match format {
        ColorFormat::Hex => 0,
        ColorFormat::Rgb => 1,
        ColorFormat::Oklab => 2,
        ColorFormat::Hsl => 3,
    }
}

/// The notation at a place of that list.
pub fn color_format_at(index: u32) -> (format: ColorFormat)
    ensures
        format == spec_color_format_at(index),
{
    match index {
        1 => ColorFormat::Rgb,
        2 => ColorFormat::Oklab,
        3 => ColorFormat::Hsl,
        _ => ColorFormat::Hex,
    }
}

/// Choosing the place of a notation gives the notation back, and every place
/// outside the list gives the hexadecimal one.
pub proof fn color_format_round_trip(format: ColorFormat, index: u32)
    ensures
        spec_color_format_at(spec_color_format_index(format)) == format,
        index > 3 ==> spec_color_format_at(index) == ColorFormat::Hex,
{
}

/// A text without the given character at its end.
pub open spec fn without_trailing(text: Seq<char>, dropped: char) -> Seq<char>
    decreases text.len(),
{
    if text.len() > 0 && text.last() == dropped {
        without_trailing(text.drop_last(), dropped)
    } else {
        text
    }
}

/// A fixed-precision number as it is shown: `"62.80"` as `"62.8"`, `"1.000"`
/// as `"1"`.
pub open spec fn shortened(text: Seq<char>) -> Seq<char> {
    without_trailing(without_trailing(text, '0'), '.')
}

fn drop_trailing<'a>(text: &'a str, dropped: char) -> (kept: &'a str)
    ensures
        kept@ == without_trailing(text@, dropped),
{
    let mut length: usize = text.unicode_len();
    assert(text@.subrange(0, length as int) == text@);
    while length > 0 && text.get_char(length - 1) == dropped
        invariant
            length <= text@.len(),
            without_trailing(text@.subrange(0, length as int), dropped) == without_trailing(
                text@,
                dropped,
            ),
        decreases length,
    {
        let ghost longer = text@.subrange(0, length as int);
        assert(longer.drop_last() == text@.subrange(0, length - 1));
        length = length - 1;
    }
    let ghost rest = text@.subrange(0, length as int);
    assert(length > 0 ==> rest.last() == text@[length - 1]);
    text.substring_char(0, length)
}

/// Appends a fixed-precision number without the zeros that say nothing.
pub fn push_shortened(target: &mut String, text: &str)
    ensures
        final(target)@ == old(target)@ + shortened(text@),
{
    target.append(drop_trailing(drop_trailing(text, '0'), '.'));
}

/// The nearest number of thousandths to an opacity of `alpha` in 255.
pub open spec fn alpha_thousandths(alpha: u8) -> nat {
    (2000 * alpha as nat + 255) / 510
}

/// A number of thousandths, at most one thousand, with three decimals.
pub open spec fn thousandths_text(thousandths: nat) -> Seq<char> {
    seq![
        crate::text::digit_char(thousandths / 1000),
        '.',
        crate::text::digit_char(thousandths / 100 % 10),
        crate::text::digit_char(thousandths / 10 % 10),
        crate::text::digit_char(thousandths % 10),
    ]
}

/// An opacity as it is shown, a decimal between 0 and 1.
pub open spec fn alpha_text(alpha: u8) -> Seq<char> {
    shortened(thousandths_text(alpha_thousandths(alpha)))
}

fn push_alpha(target: &mut String, alpha: u8)
    ensures
        final(target)@ == old(target)@ + alpha_text(alpha),
{
    let thousandths: u64 = (2000 * alpha as u64 + 255) / 510;
    let mut text = String::new();
    push_decimal(&mut text, thousandths / 1000);
    text.append(".");
    push_decimal(&mut text, thousandths / 100 % 10);
    push_decimal(&mut text, thousandths / 10 % 10);
    push_decimal(&mut text, thousandths % 10);
    proof {
        reveal_strlit(".");
        assert(text@ == thousandths_text(alpha_thousandths(alpha)));
    }
    push_shortened(target, text.as_str());
}

/// The hexadecimal notation, with the opacity where the colour is not opaque.
pub open spec fn hex_text(color: [u8; 4]) -> Seq<char> {
    "#"@ + crate::text::hex_byte(color[0]) + crate::text::hex_byte(color[1])
        + crate::text::hex_byte(color[2]) + if color[3] == 255 {
        seq![]
    } else {
        crate::text::hex_byte(color[3])
    }
}

/// The three channels in decimal.
pub open spec fn channels_text(color: [u8; 4]) -> Seq<char> {
    crate::text::decimal(color[0] as nat) + ", "@ + crate::text::decimal(color[1] as nat) + ", "@
        + crate::text::decimal(color[2] as nat)
}

/// The red, green and blue notation.
pub open spec fn rgb_text(color: [u8; 4]) -> Seq<char> {
    if color[3] == 255 {
        "rgb("@ + channels_text(color) + ")"@
    } else {
        "rgba("@ + channels_text(color) + ", "@ + alpha_text(color[3]) + ")"@
    }
}

/// The opacity behind the coordinates, where the colour is not opaque.
pub open spec fn space_suffix(alpha: u8) -> Seq<char> {
    if alpha == 255 {
        ")"@
    } else {
        " / "@ + alpha_text(alpha) + ")"@
    }
}

/// What `format_color` writes.
pub open spec fn color_text(
    color: [u8; 4],
    format: ColorFormat,
    components: ColorComponents,
) -> Seq<char> {
    match format {
        ColorFormat::Hex => hex_text(color),
        ColorFormat::Rgb => rgb_text(color),
        ColorFormat::Oklab => "oklab("@ + shortened(components.first@) + "% "@ + shortened(
            components.second@,
        ) + " "@ + shortened(components.third@) + space_suffix(color[3]),
        ColorFormat::Hsl => "hsl("@ + shortened(components.first@) + " "@ + shortened(
            components.second@,
        ) + "% "@ + shortened(components.third@) + "%"@ + space_suffix(color[3]),
    }
}

fn push_space_suffix(text: &mut String, alpha: u8)
    ensures
        final(text)@ == old(text)@ + space_suffix(alpha),
{
    if alpha != 255 {
        text.append(" / ");
        push_alpha(text, alpha);
    }
    text.append(")");
    assert(text@ == old(text)@ + space_suffix(alpha));
}

fn push_channels(text: &mut String, color: [u8; 4])
    ensures
        final(text)@ == old(text)@ + channels_text(color),
{
    push_decimal(text, color[0] as u64);
    text.append(", ");
    push_decimal(text, color[1] as u64);
    text.append(", ");
    push_decimal(text, color[2] as u64);
    assert(text@ == old(text)@ + channels_text(color));
}

/// The colour in the chosen notation. The components are those of the colour
/// in the space of that notation; the hexadecimal notation and the red, green
/// and blue one read only the bytes.
pub fn format_color(
    color: [u8; 4],
    format: ColorFormat,
    components: &ColorComponents,
) -> (text: String)
    ensures
        text@ == color_text(color, format, *components),
{
    let mut text = String::new();
    match format {
        ColorFormat::Hex => {
            text.append("#");
            push_hex_byte(&mut text, color[0]);
            push_hex_byte(&mut text, color[1]);
            push_hex_byte(&mut text, color[2]);
            if color[3] != 255 {
                push_hex_byte(&mut text, color[3]);
            }
        },
        ColorFormat::Rgb => {
            if color[3] == 255 {
                text.append("rgb(");
                push_channels(&mut text, color);
            } else {
                text.append("rgba(");
                push_channels(&mut text, color);
                text.append(", ");
                push_alpha(&mut text, color[3]);
            }
            text.append(")");
        },
        ColorFormat::Oklab => {
            text.append("oklab(");
            push_shortened(&mut text, components.first.as_str());
            text.append("% ");
            push_shortened(&mut text, components.second.as_str());
            text.append(" ");
            push_shortened(&mut text, components.third.as_str());
            push_space_suffix(&mut text, color[3]);
        },
        ColorFormat::Hsl => {
            text.append("hsl(");
            push_shortened(&mut text, components.first.as_str());
            text.append(" ");
            push_shortened(&mut text, components.second.as_str());
            text.append("% ");
            push_shortened(&mut text, components.third.as_str());
            text.append("%");
            push_space_suffix(&mut text, color[3]);
        },
    }
    assert(text@ == color_text(color, format, *components));
    text
}

} // verus!

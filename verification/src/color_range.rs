use vstd::prelude::*;

use crate::color::{Color, Rgb};
use crate::color_support::{
    ansi_index_color, base16_palette, color_rgb_to_ansi_index, is_nearest_index,
    ratatui_color_from_ansi_index,
};

verus! {

/// Options for restricting the terminal colors that rendered pixels are
/// converted to.
///
/// Many terminals support 24-bit RGB colors, but some only support
/// pre-defined sets of 16 or 256 ANSI colors. This enum represents each of
/// those sets of possible colors when converting rendered pixels to terminal
/// characters.
#[derive(Clone, Copy, Debug)]
pub enum TerminalColorRange {
    /// Any 24-bit color, represented by the `Color::Rgb` variant.
    Rgb,

    /// A color from a set of 256 pre-defined colors, referred to by index
    /// (the `Color::Indexed` variant).
    ANSI256,

    /// A color from a set of 16 pre-defined colors, referred to by name (the
    /// named variants, such as `Color::Cyan` or `Color::Magenta`).
    ANSI16,
}

/// One channel level of the standard 6x6x6 terminal color cube: zero at step
/// zero, then 95, 135, 175, 215 and 255.
pub open spec fn xterm_cube_level(v: int) -> int {
    if v == 0 {
        0
    } else {
        55 + 40 * v
    }
}

/// Entry `i` of the standard terminal 256-color table: the sixteen classic
/// colors, then a 6x6x6 color cube over the standard channel levels, then 24
/// grayscale steps.
pub open spec fn xterm256_entry(i: int) -> Rgb {
    if i < 16 {
        base16_palette()[i]
    } else if i < 232 {
        Rgb {
            r: xterm_cube_level((i - 16) / 36) as u8,
            g: xterm_cube_level(((i - 16) / 6) % 6) as u8,
            b: xterm_cube_level((i - 16) % 6) as u8,
        }
    } else {
        Rgb {
            r: (8 + (i - 232) * 10) as u8,
            g: (8 + (i - 232) * 10) as u8,
            b: (8 + (i - 232) * 10) as u8,
        }
    }
}

/// The standard terminal 256-color table as a sequence.
pub open spec fn xterm256_palette() -> Seq<Rgb> {
    Seq::new(256, |i: int| xterm256_entry(i))
}

/// Build the standard terminal 256-color table.
fn xterm_ansi_colors_256() -> (colors: Vec<Rgb>)
    ensures
        colors@.len() == 256,
        forall|i: int| 0 <= i < 256 ==> colors@[i] == xterm256_entry(i),
{
    let mut colors = crate::color_support::ansi_colors_16();

    let mut i: usize = 16;
    while i < 232
        invariant
            16 <= i <= 232,
            colors@.len() == i,
            forall|k: int| 0 <= k < i ==> colors@[k] == xterm256_entry(k),
        decreases 232 - i,
    {
        let j: usize = i - 16;
        let r: usize = j / 36;
        let g: usize = (j / 6) % 6;
        let b: usize = j % 6;
        assert(r <= 5 && g <= 5 && b <= 5);
        let rl: usize = if r == 0 { 0 } else { 55 + 40 * r };
        let gl: usize = if g == 0 { 0 } else { 55 + 40 * g };
        let bl: usize = if b == 0 { 0 } else { 55 + 40 * b };
        colors.push(Rgb { r: rl as u8, g: gl as u8, b: bl as u8 });
        i = i + 1;
    }

    while i < 256
        invariant
            232 <= i <= 256,
            colors@.len() == i,
            forall|k: int| 0 <= k < i ==> colors@[k] == xterm256_entry(k),
        decreases 256 - i,
    {
        let gray: usize = 8 + (i - 232) * 10;
        colors.push(Rgb { r: gray as u8, g: gray as u8, b: gray as u8 });
        i = i + 1;
    }

    colors
}

/// `result` is `color` reduced to the standard 256-color table: a raw RGB
/// color becomes the indexed color nearest to it; every other color is
/// unchanged.
pub open spec fn range_quantized_to_ansi256(color: Color, result: Color) -> bool {
    match color {
        Color::Rgb(r, g, b) => exists|i: int|
            is_nearest_index(Rgb { r, g, b }, xterm256_palette(), i) && result == Color::Indexed(
                i as u8,
            ),
        _ => result == color,
    }
}

/// `result` is `color` reduced to the sixteen classic ANSI colors: a raw RGB
/// color becomes the named color nearest to it; an indexed color is first
/// expanded to its RGB value through the standard 256-color table and then
/// reduced; every other color is unchanged.
pub open spec fn range_quantized_to_ansi16(color: Color, result: Color) -> bool {
    match color {
        Color::Rgb(r, g, b) => exists|i: int|
            is_nearest_index(Rgb { r, g, b }, base16_palette(), i) && result == ansi_index_color(i),
        Color::Indexed(index) => exists|i: int|
            is_nearest_index(xterm256_entry(index as int), base16_palette(), i) && result
                == ansi_index_color(i),
        _ => result == color,
    }
}

fn color_to_ansi_256(color: Color) -> (result: Color)
    ensures
        range_quantized_to_ansi256(color, result),
{
    match color {
        Color::Rgb(r, g, b) => {
            let palette = xterm_ansi_colors_256();
            assert(palette@ =~= xterm256_palette());
            let index = color_rgb_to_ansi_index(Rgb { r, g, b }, &palette);
            Color::Indexed(index)
        },
        _ => color,
    }
}

fn color_to_ansi_16(color: Color) -> (result: Color)
    ensures
        range_quantized_to_ansi16(color, result),
{
    let index = match color {
        Color::Rgb(r, g, b) => {
            let palette = crate::color_support::ansi_colors_16();
            color_rgb_to_ansi_index(Rgb { r, g, b }, &palette)
        },
        Color::Indexed(index) => {
            let palette256 = xterm_ansi_colors_256();
            assert(palette256@ =~= xterm256_palette());
            let expanded = palette256[index as usize];
            let palette = crate::color_support::ansi_colors_16();
            color_rgb_to_ansi_index(expanded, &palette)
        },
        _ => {
            return color;
        },
    };

    ratatui_color_from_ansi_index(index)
}

/// Restrict a color to the given terminal color range: the full RGB range
/// passes the color through unchanged, while the ANSI options reduce raw RGB
/// colors to the nearest entry of the standard 256- or 16-color table.
pub fn color_for_color_range(color: Color, range: TerminalColorRange) -> (result: Color)
    ensures
        range is Rgb ==> result == color,
        range is ANSI256 ==> range_quantized_to_ansi256(color, result),
        range is ANSI16 ==> range_quantized_to_ansi16(color, result),
{
    match range {
        TerminalColorRange::Rgb => color,
        TerminalColorRange::ANSI256 => color_to_ansi_256(color),
        TerminalColorRange::ANSI16 => color_to_ansi_16(color),
    }
}

} // verus!

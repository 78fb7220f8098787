use vstd::prelude::*;

use crate::color::{Color, Rgb};

verus! {

/// Options for restricting the terminal colors that rendered pixels are
/// converted to.
///
/// Many terminals support 24-bit RGB "true color", but some only support
/// pre-defined sets of 16 or 256 ANSI colors. This enum represents each of
/// those sets of possible colors when converting rendered pixels to terminal
/// characters.
#[derive(Clone, Copy, Debug)]
pub enum ColorSupport {
    /// Any 24-bit color, represented by the `Color::Rgb` variant.
    TrueColor,

    /// A color from a set of 256 pre-defined colors, referred to by index
    /// (the `Color::Indexed` variant).
    ANSI256,

    /// A color from a set of 16 pre-defined colors, referred to by name (the
    /// named variants, such as `Color::Cyan` or `Color::Magenta`).
    ANSI16,
}

/// The square of the Euclidean distance between two colors in RGB space.
///
/// Minimizing the squared distance minimizes the distance itself, so nearest
/// palette entries are found without ever taking a square root.
pub open spec fn color_distance_squared(a: Rgb, b: Rgb) -> int {
    (a.r - b.r) * (a.r - b.r) + (a.g - b.g) * (a.g - b.g) + (a.b - b.b) * (a.b - b.b)
}

/// `i` is the index of the palette entry nearest to `color` in Euclidean
/// distance, with ties broken by the lowest index.
pub open spec fn is_nearest_index(color: Rgb, palette: Seq<Rgb>, i: int) -> bool {
    &&& 0 <= i < palette.len()
    &&& forall|j: int|
        0 <= j < palette.len() ==> color_distance_squared(palette[i], color)
            <= color_distance_squared(palette[j], color)
    &&& forall|j: int|
        0 <= j < i ==> color_distance_squared(palette[j], color) > color_distance_squared(
            palette[i],
            color,
        )
}

/// The sixteen classic ANSI colors as RGB values, in table order.
pub open spec fn base16_palette() -> Seq<Rgb> {
    seq![
        Rgb { r: 0, g: 0, b: 0 },
        Rgb { r: 128, g: 0, b: 0 },
        Rgb { r: 0, g: 128, b: 0 },
        Rgb { r: 128, g: 128, b: 0 },
        Rgb { r: 0, g: 0, b: 128 },
        Rgb { r: 128, g: 0, b: 128 },
        Rgb { r: 0, g: 128, b: 128 },
        Rgb { r: 192, g: 192, b: 192 },
        Rgb { r: 128, g: 128, b: 128 },
        Rgb { r: 255, g: 0, b: 0 },
        Rgb { r: 0, g: 255, b: 0 },
        Rgb { r: 255, g: 255, b: 0 },
        Rgb { r: 0, g: 0, b: 255 },
        Rgb { r: 255, g: 0, b: 255 },
        Rgb { r: 0, g: 255, b: 255 },
        Rgb { r: 255, g: 255, b: 255 },
    ]
}

/// Entry `i` of the generated 256-color table: the sixteen classic colors,
/// then a 6x6x6 color cube in steps of 51, then 24 grayscale steps.
pub open spec fn ansi256_entry(i: int) -> Rgb {
    if i < 16 {
        base16_palette()[i]
    } else if i < 232 {
        Rgb {
            r: (((i - 16) / 36) * 51) as u8,
            g: ((((i - 16) / 6) % 6) * 51) as u8,
            b: (((i - 16) % 6) * 51) as u8,
        }
    } else {
        Rgb { r: (8 + (i - 232) * 10) as u8, g: (8 + (i - 232) * 10) as u8, b: (8 + (i - 232) * 10) as u8 }
    }
}

/// The generated 256-color table as a sequence.
pub open spec fn ansi256_palette() -> Seq<Rgb> {
    Seq::new(256, |i: int| ansi256_entry(i))
}

/// The sixteen classic ANSI colors as RGB values.
pub fn ansi_colors_16() -> (colors: Vec<Rgb>)
    ensures
        colors@ == base16_palette(),
{
    let mut colors: Vec<Rgb> = Vec::new();
    colors.push(Rgb { r: 0, g: 0, b: 0 });
    colors.push(Rgb { r: 128, g: 0, b: 0 });
    colors.push(Rgb { r: 0, g: 128, b: 0 });
    colors.push(Rgb { r: 128, g: 128, b: 0 });
    colors.push(Rgb { r: 0, g: 0, b: 128 });
    colors.push(Rgb { r: 128, g: 0, b: 128 });
    colors.push(Rgb { r: 0, g: 128, b: 128 });
    colors.push(Rgb { r: 192, g: 192, b: 192 });
    colors.push(Rgb { r: 128, g: 128, b: 128 });
    colors.push(Rgb { r: 255, g: 0, b: 0 });
    colors.push(Rgb { r: 0, g: 255, b: 0 });
    colors.push(Rgb { r: 255, g: 255, b: 0 });
    colors.push(Rgb { r: 0, g: 0, b: 255 });
    colors.push(Rgb { r: 255, g: 0, b: 255 });
    colors.push(Rgb { r: 0, g: 255, b: 255 });
    colors.push(Rgb { r: 255, g: 255, b: 255 });
    assert(colors@ =~= base16_palette());
    colors
}

/// Build the full 256-color ANSI table: the sixteen classic colors are
/// predefined, the next 216 form a 6x6x6 color cube, and the last 24 are
/// grayscale steps.
pub fn generate_ansi_colors_256() -> (colors: Vec<Rgb>)
    ensures
        colors@.len() == 256,
        forall|i: int| 0 <= i < 256 ==> colors@[i] == ansi256_entry(i),
{
    let mut colors = ansi_colors_16();

    let mut i: usize = 16;
    while i < 232
        invariant
            16 <= i <= 232,
            colors@.len() == i,
            forall|k: int| 0 <= k < i ==> colors@[k] == ansi256_entry(k),
        decreases 232 - i,
    {
        let j: usize = i - 16;
        let r: usize = j / 36;
        let g: usize = (j / 6) % 6;
        let b: usize = j % 6;
        assert(r <= 5 && g <= 5 && b <= 5);
        colors.push(Rgb { r: (r * 51) as u8, g: (g * 51) as u8, b: (b * 51) as u8 });
        i = i + 1;
    }

    while i < 256
        invariant
            232 <= i <= 256,
            colors@.len() == i,
            forall|k: int| 0 <= k < i ==> colors@[k] == ansi256_entry(k),
        decreases 256 - i,
    {
        let gray: usize = 8 + (i - 232) * 10;
        colors.push(Rgb { r: gray as u8, g: gray as u8, b: gray as u8 });
        i = i + 1;
    }

    colors
}

/// The squared Euclidean distance between two RGB colors.
fn color_distance(a: Rgb, b: Rgb) -> (d: u32)
    ensures
        d == color_distance_squared(a, b),
{
    let dr: u32 = if a.r >= b.r {
        (a.r - b.r) as u32
    } else {
        (b.r - a.r) as u32
    };
    let dg: u32 = if a.g >= b.g {
        (a.g - b.g) as u32
    } else {
        (b.g - a.g) as u32
    };
    let db: u32 = if a.b >= b.b {
        (a.b - b.b) as u32
    } else {
        (b.b - a.b) as u32
    };

    proof {
        lemma_abs_square(dr as int, a.r - b.r);
        lemma_abs_square(dg as int, a.g - b.g);
        lemma_abs_square(db as int, a.b - b.b);
    }

    dr * dr + dg * dg + db * db
}

/// The square of a difference equals the square of its absolute value.
proof fn lemma_abs_square(m: int, d: int)
    requires
        m == d || m == -d,
        0 <= m <= 255,
    ensures
        m * m == d * d,
        m * m <= 65025,
{
    assert(m * m == d * d && m * m <= 65025) by (nonlinear_arith)
        requires
            m == d || m == -d,
            0 <= m <= 255,
    ;
}

/// The index of the palette entry nearest to `color` in Euclidean distance;
/// ties are broken by the lowest table index. An empty palette yields zero.
pub fn color_rgb_to_ansi_index(color: Rgb, colors: &Vec<Rgb>) -> (index: u8)
    requires
        colors@.len() <= 256,
    ensures
        colors@.len() == 0 ==> index == 0,
        colors@.len() > 0 ==> is_nearest_index(color, colors@, index as int),
{
    if colors.len() == 0 {
        return 0;
    }

    let mut best: usize = 0;
    let mut best_distance: u32 = color_distance(colors[0], color);

    let mut j: usize = 1;
    while j < colors.len()
        invariant
            1 <= j <= colors@.len(),
            best < j,
            best_distance == color_distance_squared(colors@[best as int], color),
            forall|k: int|
                0 <= k < j ==> color_distance_squared(colors@[best as int], color)
                    <= color_distance_squared(colors@[k], color),
            forall|k: int|
                0 <= k < best ==> color_distance_squared(colors@[k], color)
                    > color_distance_squared(colors@[best as int], color),
        decreases colors@.len() - j,
    {
        let d = color_distance(colors[j], color);
        if d < best_distance {
            best = j;
            best_distance = d;
        }
        j = j + 1;
    }

    best as u8
}

/// The terminal color for an ANSI table index: one of the sixteen named
/// colors for indices below sixteen, an indexed color otherwise.
pub open spec fn ansi_index_color(i: int) -> Color {
    if i == 0 {
        Color::Black
    } else if i == 1 {
        Color::Red
    } else if i == 2 {
        Color::Green
    } else if i == 3 {
        Color::Yellow
    } else if i == 4 {
        Color::Blue
    } else if i == 5 {
        Color::Magenta
    } else if i == 6 {
        Color::Cyan
    } else if i == 7 {
        Color::Gray
    } else if i == 8 {
        Color::DarkGray
    } else if i == 9 {
        Color::LightRed
    } else if i == 10 {
        Color::LightGreen
    } else if i == 11 {
        Color::LightYellow
    } else if i == 12 {
        Color::LightBlue
    } else if i == 13 {
        Color::LightMagenta
    } else if i == 14 {
        Color::LightCyan
    } else if i == 15 {
        Color::White
    } else {
        Color::Indexed(i as u8)
    }
}

/// Convert an ANSI table index into a terminal color: the sixteen named
/// colors for indices below sixteen, `Color::Indexed` otherwise.
pub fn ratatui_color_from_ansi_index(index: u8) -> (color: Color)
    ensures
        color == ansi_index_color(index as int),
{
    match index {
        0 => Color::Black,
        1 => Color::Red,
        2 => Color::Green,
        3 => Color::Yellow,
        4 => Color::Blue,
        5 => Color::Magenta,
        6 => Color::Cyan,
        7 => Color::Gray,
        8 => Color::DarkGray,
        9 => Color::LightRed,
        10 => Color::LightGreen,
        11 => Color::LightYellow,
        12 => Color::LightBlue,
        13 => Color::LightMagenta,
        14 => Color::LightCyan,
        15 => Color::White,
        _ => Color::Indexed(index),
    }
}

/// `result` is `color` reduced to the 256-color ANSI table: a raw RGB color
/// becomes the indexed color nearest to it; every other color is unchanged.
pub open spec fn quantized_to_ansi256(color: Color, result: Color) -> bool {
    match color {
        Color::Rgb(r, g, b) => exists|i: int|
            is_nearest_index(Rgb { r, g, b }, ansi256_palette(), i) && result == Color::Indexed(
                i as u8,
            ),
        _ => result == color,
    }
}

/// `result` is `color` reduced to the sixteen classic ANSI colors: a raw RGB
/// color becomes the named color nearest to it; an indexed color is first
/// expanded to its RGB value through the 256-color table and then reduced;
/// every other color is unchanged.
pub open spec fn quantized_to_ansi16(color: Color, result: Color) -> bool {
    match color {
        Color::Rgb(r, g, b) => exists|i: int|
            is_nearest_index(Rgb { r, g, b }, base16_palette(), i) && result == ansi_index_color(i),
        Color::Indexed(index) => exists|i: int|
            is_nearest_index(ansi256_entry(index as int), base16_palette(), i) && result
                == ansi_index_color(i),
        _ => result == color,
    }
}

fn color_to_ansi_256(color: Color) -> (result: Color)
    ensures
        quantized_to_ansi256(color, result),
{
    match color {
        Color::Rgb(r, g, b) => {
            let palette = generate_ansi_colors_256();
            assert(palette@ =~= ansi256_palette());
            let index = color_rgb_to_ansi_index(Rgb { r, g, b }, &palette);
            Color::Indexed(index)
        },
        _ => color,
    }
}

fn color_to_ansi_16(color: Color) -> (result: Color)
    ensures
        quantized_to_ansi16(color, result),
{
    let index = match color {
        Color::Rgb(r, g, b) => {
            let palette = ansi_colors_16();
            color_rgb_to_ansi_index(Rgb { r, g, b }, &palette)
        },
        Color::Indexed(index) => {
            let palette256 = generate_ansi_colors_256();
            assert(palette256@ =~= ansi256_palette());
            let expanded = palette256[index as usize];
            let palette = ansi_colors_16();
            color_rgb_to_ansi_index(expanded, &palette)
        },
        _ => {
            return color;
        },
    };

    ratatui_color_from_ansi_index(index)
}

/// The table position of a classic named color, or a negative value for any
/// color that is not one of the sixteen named variants.
pub open spec fn classic_index(color: Color) -> int {
    match color {
        Color::Black => 0,
        Color::Red => 1,
        Color::Green => 2,
        Color::Yellow => 3,
        Color::Blue => 4,
        Color::Magenta => 5,
        Color::Cyan => 6,
        Color::Gray => 7,
        Color::DarkGray => 8,
        Color::LightRed => 9,
        Color::LightGreen => 10,
        Color::LightYellow => 11,
        Color::LightBlue => 12,
        Color::LightMagenta => 13,
        Color::LightCyan => 14,
        Color::White => 15,
        _ => -1,
    }
}

/// `color` is one of the sixteen classic named ANSI colors.
pub open spec fn is_classic_color(color: Color) -> bool {
    0 <= classic_index(color) < 16
}

/// The RGB value a color stands for: raw RGB colors hold it directly, indexed
/// and named colors refer to their table entries, and `Reset` stands for no
/// color at all.
pub open spec fn spec_color_rgb(color: Color) -> Option<Rgb> {
    match color {
        Color::Reset => None,
        Color::Rgb(r, g, b) => Some(Rgb { r, g, b }),
        Color::Indexed(index) => Some(ansi256_entry(index as int)),
        _ => Some(base16_palette()[classic_index(color)]),
    }
}

/// Expand a color to the RGB value it stands for, by table lookup for indexed
/// and named colors. `Reset` stands for no color and yields nothing.
pub fn quantize_to_rgb(color: Color) -> (result: Option<Rgb>)
    ensures
        result == spec_color_rgb(color),
{
    match color {
        Color::Reset => None,
        Color::Rgb(r, g, b) => Some(Rgb { r, g, b }),
        Color::Indexed(index) => {
            let palette = generate_ansi_colors_256();
            Some(palette[index as usize])
        },
        _ => {
            let index: usize = match color {
                Color::Black => 0,
                Color::Red => 1,
                Color::Green => 2,
                Color::Yellow => 3,
                Color::Blue => 4,
                Color::Magenta => 5,
                Color::Cyan => 6,
                Color::Gray => 7,
                Color::DarkGray => 8,
                Color::LightRed => 9,
                Color::LightGreen => 10,
                Color::LightYellow => 11,
                Color::LightBlue => 12,
                Color::LightMagenta => 13,
                Color::LightCyan => 14,
                _ => 15,
            };
            let palette = ansi_colors_16();
            Some(palette[index])
        },
    }
}

/// Squared color distance is never negative, and is zero exactly on equal
/// colors.
proof fn lemma_distance_zero(a: Rgb, b: Rgb)
    ensures
        color_distance_squared(a, b) >= 0,
        color_distance_squared(a, b) == 0 <==> a == b,
{
    assert((a.r - b.r) * (a.r - b.r) >= 0 && ((a.r - b.r) * (a.r - b.r) == 0 <==> a.r == b.r))
        by (nonlinear_arith);
    assert((a.g - b.g) * (a.g - b.g) >= 0 && ((a.g - b.g) * (a.g - b.g) == 0 <==> a.g == b.g))
        by (nonlinear_arith);
    assert((a.b - b.b) * (a.b - b.b) >= 0 && ((a.b - b.b) * (a.b - b.b) == 0 <==> a.b == b.b))
        by (nonlinear_arith);
}

/// No two of the sixteen classic palette entries hold the same RGB value.
proof fn lemma_base16_distinct()
    ensures
        forall|i: int, j: int|
            0 <= i < 16 && 0 <= j < 16 && i != j ==> base16_palette()[i] != base16_palette()[j],
{
}

/// Quantizing toward the sixteen classic colors from a raw RGB sample always
/// lands on a classic color, and quantizing the RGB expansion of that result
/// again gives the same result.
proof fn lemma_ansi16_idempotent_core(sample: Rgb, result: Color, rgb: Rgb, requantized: Color)
    requires
        exists|i: int|
            is_nearest_index(sample, base16_palette(), i) && result == ansi_index_color(i),
        spec_color_rgb(result) == Some(rgb),
        exists|i: int|
            is_nearest_index(rgb, base16_palette(), i) && requantized == ansi_index_color(i),
    ensures
        is_classic_color(result),
        requantized == result,
{
    let palette = base16_palette();
    let i = choose|i: int|
        is_nearest_index(sample, palette, i) && result == ansi_index_color(i);
    assert(classic_index(ansi_index_color(i)) == i);
    assert(rgb == palette[i]);
    let i2 = choose|i2: int|
        is_nearest_index(rgb, palette, i2) && requantized == ansi_index_color(i2);
    lemma_distance_zero(palette[i], rgb);
    lemma_distance_zero(palette[i2], rgb);
    assert(color_distance_squared(palette[i2], rgb) <= 0);
    assert(palette[i2] == palette[i]);
    if i2 < i {
        assert(color_distance_squared(palette[i2], sample) == color_distance_squared(
            palette[i],
            sample,
        ));
        assert(false);
    }
    if i < i2 {
        assert(color_distance_squared(palette[i], rgb) > color_distance_squared(
            palette[i2],
            rgb,
        ));
        assert(false);
    }
}

/// Law: for every color but `Reset`, quantizing to the sixteen classic ANSI
/// colors yields one of those sixteen colors, and the quantization is
/// idempotent: expanding the result back to its RGB value and quantizing that
/// value again gives the same result.
pub proof fn lemma_ansi16_idempotent(color: Color, result: Color, rgb: Rgb, requantized: Color)
    requires
        !(color is Reset),
        quantized_to_ansi16(color, result),
        spec_color_rgb(result) == Some(rgb),
        quantized_to_ansi16(Color::Rgb(rgb.r, rgb.g, rgb.b), requantized),
    ensures
        is_classic_color(result),
        requantized == result,
{
    let palette = base16_palette();
    match color {
        Color::Reset => {
            assert(false);
        },
        Color::Rgb(r, g, b) => {
            lemma_ansi16_idempotent_core(Rgb { r, g, b }, result, rgb, requantized);
        },
        Color::Indexed(index) => {
            lemma_ansi16_idempotent_core(ansi256_entry(index as int), result, rgb, requantized);
        },
        _ => {
            assert(result == color);
            let ci = classic_index(color);
            assert(0 <= ci < 16 && ansi_index_color(ci) == color);
            assert(rgb == palette[ci]);
            let i2 = choose|i2: int|
                is_nearest_index(rgb, palette, i2) && requantized == ansi_index_color(i2);
            lemma_distance_zero(palette[ci], rgb);
            lemma_distance_zero(palette[i2], rgb);
            assert(color_distance_squared(palette[i2], rgb) <= 0);
            assert(palette[i2] == palette[ci]);
            lemma_base16_distinct();
            assert(i2 == ci);
        },
    }
}

/// The index of the palette entry nearest to a color, with ties broken by
/// the lowest index, as a function.
pub open spec fn nearest_palette_index(color: Rgb, palette: Seq<Rgb>) -> int {
    choose|i: int| is_nearest_index(color, palette, i)
}

/// There is only one nearest index: any index that is nearest is the nearest
/// index.
pub proof fn lemma_nearest_index_unique(color: Rgb, palette: Seq<Rgb>, i: int)
    requires
        is_nearest_index(color, palette, i),
    ensures
        nearest_palette_index(color, palette) == i,
{
    assert(exists|k: int| is_nearest_index(color, palette, k));
    let j = nearest_palette_index(color, palette);
    assert(is_nearest_index(color, palette, j));
    if j < i {
        assert(false);
    }
    if i < j {
        assert(false);
    }
}

/// What restricting a color to a terminal's supported colors returns, as a
/// function of the color and the support level.
pub open spec fn spec_color_for_color_support(color: Color, support: ColorSupport) -> Color {
    match support {
        ColorSupport::TrueColor => color,
        ColorSupport::ANSI256 => match color {
            Color::Rgb(r, g, b) => Color::Indexed(
                nearest_palette_index(Rgb { r, g, b }, ansi256_palette()) as u8,
            ),
            _ => color,
        },
        ColorSupport::ANSI16 => match color {
            Color::Rgb(r, g, b) => ansi_index_color(
                nearest_palette_index(Rgb { r, g, b }, base16_palette()),
            ),
            Color::Indexed(index) => ansi_index_color(
                nearest_palette_index(ansi256_entry(index as int), base16_palette()),
            ),
            _ => color,
        },
    }
}

/// Restrict a color to the colors a terminal supports: full color support
/// passes the color through unchanged, while the ANSI options reduce raw RGB
/// colors to the nearest entry of the 256- or 16-color table. Colors that are
/// already named or indexed are never expanded toward a larger color space.
pub fn color_for_color_support(color: Color, support: ColorSupport) -> (result: Color)
    ensures
        result == spec_color_for_color_support(color, support),
        support is TrueColor ==> result == color,
        support is ANSI256 ==> quantized_to_ansi256(color, result),
        support is ANSI16 ==> quantized_to_ansi16(color, result),
{
    let result = match support {
        ColorSupport::TrueColor => color,
        ColorSupport::ANSI256 => color_to_ansi_256(color),
        ColorSupport::ANSI16 => color_to_ansi_16(color),
    };
    proof {
        if support is ANSI256 {
            match color {
                Color::Rgb(r, g, b) => {
                    let i = choose|i: int|
                        is_nearest_index(Rgb { r, g, b }, ansi256_palette(), i) && result
                            == Color::Indexed(i as u8);
                    lemma_nearest_index_unique(Rgb { r, g, b }, ansi256_palette(), i);
                },
                _ => {},
            }
        }
        if support is ANSI16 {
            match color {
                Color::Rgb(r, g, b) => {
                    let i = choose|i: int|
                        is_nearest_index(Rgb { r, g, b }, base16_palette(), i) && result
                            == ansi_index_color(i);
                    lemma_nearest_index_unique(Rgb { r, g, b }, base16_palette(), i);
                },
                Color::Indexed(index) => {
                    let i = choose|i: int|
                        is_nearest_index(ansi256_entry(index as int), base16_palette(), i) && result
                            == ansi_index_color(i);
                    lemma_nearest_index_unique(ansi256_entry(index as int), base16_palette(), i);
                },
                _ => {},
            }
        }
    }
    result
}

} // verus!

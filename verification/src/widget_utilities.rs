use vstd::prelude::*;

use crate::camera_edge_detection::{EdgeCharacters, RatatuiCameraEdgeDetection};
use crate::camera_strategy::ColorChoice;
use crate::color::Color;
use crate::cell_buffer::Rect;
use crate::color_support::{color_for_color_support, spec_color_for_color_support, ColorSupport};
use crate::raster::{ColorImage, DepthImage, Gradient, Rgba};
use crate::widget_depth_buffer::RatatuiCameraDepthBuffer;
use crate::color::Rgb;

verus! {

/// Convert a position in a row-major sequence of cells into the cell
/// coordinates within an image's cell grid (one cell column per pixel
/// column).
pub fn coords_from_index(index: usize, image: &ColorImage) -> (coords: (u16, u16))
    requires
        image.wf(),
        1 <= image.width,
        index < image.width * 0x10000,
    ensures
        coords.0 == index as int % image.width as int,
        coords.1 == index as int / image.width as int,
        coords.0 < image.width,
{
    let width = image.width as usize;
    proof {
        assert(index % width < width && index / width < 0x10000) by (nonlinear_arith)
            requires
                1 <= width,
                index < width * 0x10000,
        ;
        assert(width <= 0x4000);
    }
    ((index % width) as u16, (index / width) as u16)
}

/// `value` is a strict edge signal and at least as strong as every channel of
/// the gradient: positive, and no other direction exceeds it.
pub open spec fn is_max_gradient(value: u8, gradient: Gradient) -> bool {
    &&& value > 0
    &&& value >= gradient.vertical
    &&& value >= gradient.horizontal
    &&& value >= gradient.forward_diagonal
    &&& value >= gradient.backward_diagonal
}

/// No edge was detected at this texel: all four gradient channels are zero.
pub open spec fn gradient_is_zero(gradient: Gradient) -> bool {
    &&& gradient.vertical == 0
    &&& gradient.horizontal == 0
    &&& gradient.forward_diagonal == 0
    &&& gradient.backward_diagonal == 0
}

/// What the edge overlay turns a cell's glyph and foreground color into,
/// given the gradient sampled for the cell: the directional mode picks the
/// glyph of the first direction (vertical, horizontal, forward-diagonal,
/// backward-diagonal) whose magnitude is positive and no smaller than all
/// others; the single mode replaces the glyph whenever any magnitude is
/// positive. Without an edge the cell passes through unchanged.
pub open spec fn spec_replace_detected_edges(
    character: char,
    fg: Option<Color>,
    gradient: Gradient,
    edge_detection: RatatuiCameraEdgeDetection,
) -> (char, Option<Color>) {
    let edge_color = if edge_detection.edge_color is Some {
        edge_detection.edge_color
    } else {
        fg
    };
    match edge_detection.edge_characters {
        EdgeCharacters::Directional { vertical, horizontal, forward_diagonal, backward_diagonal } => {
            if is_max_gradient(gradient.vertical, gradient) {
                (vertical, edge_color)
            } else if is_max_gradient(gradient.horizontal, gradient) {
                (horizontal, edge_color)
            } else if is_max_gradient(gradient.forward_diagonal, gradient) {
                (forward_diagonal, edge_color)
            } else if is_max_gradient(gradient.backward_diagonal, gradient) {
                (backward_diagonal, edge_color)
            } else {
                (character, fg)
            }
        },
        EdgeCharacters::Single(edge_character) => {
            if !gradient_is_zero(gradient) {
                (edge_character, edge_color)
            } else {
                (character, fg)
            }
        },
    }
}

/// Replace a cell's glyph and foreground color when the sampled gradient
/// holds a detected edge, picking the replacement glyph by direction when the
/// configuration asks for it. A gradient of four zeroes leaves glyph and
/// color unchanged in either mode.
pub fn replace_detected_edges(
    character: char,
    fg: Option<Color>,
    gradient: Gradient,
    edge_detection: &RatatuiCameraEdgeDetection,
) -> (result: (char, Option<Color>))
    ensures
        result == spec_replace_detected_edges(character, fg, gradient, *edge_detection),
        gradient_is_zero(gradient) ==> result == (character, fg),
{
    let edge_color = match edge_detection.edge_color {
        Some(color) => Some(color),
        None => fg,
    };
    match edge_detection.edge_characters {
        EdgeCharacters::Directional { vertical, horizontal, forward_diagonal, backward_diagonal } => {
            if is_max_sobel(gradient.vertical, gradient) {
                (vertical, edge_color)
            } else if is_max_sobel(gradient.horizontal, gradient) {
                (horizontal, edge_color)
            } else if is_max_sobel(gradient.forward_diagonal, gradient) {
                (forward_diagonal, edge_color)
            } else if is_max_sobel(gradient.backward_diagonal, gradient) {
                (backward_diagonal, edge_color)
            } else {
                (character, fg)
            }
        },
        EdgeCharacters::Single(edge_character) => {
            let any_edge = gradient.vertical > 0 || gradient.horizontal > 0
                || gradient.forward_diagonal > 0 || gradient.backward_diagonal > 0;
            if any_edge {
                (edge_character, edge_color)
            } else {
                (character, fg)
            }
        },
    }
}

/// Whether one gradient channel is positive and at least as strong as every
/// channel of the texel.
fn is_max_sobel(value: u8, gradient: Gradient) -> (result: bool)
    ensures
        result == is_max_gradient(value, gradient),
{
    value > 0 && value >= gradient.vertical && value >= gradient.horizontal
        && value >= gradient.forward_diagonal && value >= gradient.backward_diagonal
}

/// The truncating per-channel average of two RGB samples.
pub open spec fn spec_average_rgb(a: Rgb, b: Rgb) -> Rgb {
    Rgb {
        r: ((a.r + b.r) / 2) as u8,
        g: ((a.g + b.g) / 2) as u8,
        b: ((a.b + b.b) / 2) as u8,
    }
}

/// Average a running RGB triplet with another pixel, channel by channel, with
/// truncating integer division.
pub fn average_in_rgb(rgb_triplet: Rgb, pixel: Rgb) -> (result: Rgb)
    ensures
        result == spec_average_rgb(rgb_triplet, pixel),
{
    Rgb {
        r: (((rgb_triplet.r as u16) + (pixel.r as u16)) / 2) as u8,
        g: (((rgb_triplet.g as u16) + (pixel.g as u16)) / 2) as u8,
        b: (((rgb_triplet.b as u16) + (pixel.b as u16)) / 2) as u8,
    }
}

/// The truncating per-channel average of two RGBA samples.
pub open spec fn spec_average_rgba(a: Rgba, b: Rgba) -> Rgba {
    Rgba {
        r: ((a.r + b.r) / 2) as u8,
        g: ((a.g + b.g) / 2) as u8,
        b: ((a.b + b.b) / 2) as u8,
        a: ((a.a + b.a) / 2) as u8,
    }
}

/// Average a running RGBA quad with another pixel, channel by channel, with
/// truncating integer division.
pub fn average_in_rgba(rgba_quad: Rgba, pixel: Rgba) -> (result: Rgba)
    ensures
        result == spec_average_rgba(rgba_quad, pixel),
{
    Rgba {
        r: (((rgba_quad.r as u16) + (pixel.r as u16)) / 2) as u8,
        g: (((rgba_quad.g as u16) + (pixel.g as u16)) / 2) as u8,
        b: (((rgba_quad.b as u16) + (pixel.b as u16)) / 2) as u8,
        a: (((rgba_quad.a as u16) + (pixel.a as u16)) / 2) as u8,
    }
}

/// One color channel multiplied by a fixed-point factor, saturating at the
/// channel maximum.
pub open spec fn spec_scale_channel(channel: u8, scale: u32) -> u8 {
    let scaled = (channel * scale) / 65536;
    if scaled > 255 {
        255
    } else {
        scaled as u8
    }
}

/// Multiply one color channel by a fixed-point factor, saturating at the
/// channel maximum.
fn scale_channel(channel: u8, scale: u32) -> (result: u8)
    ensures
        result == spec_scale_channel(channel, scale),
{
    proof {
        assert((channel as int) * (scale as int) <= 255 * 0xFFFF_FFFF) by (nonlinear_arith)
            requires
                0 <= channel <= 255,
                0 <= scale <= 0xFFFF_FFFF,
        ;
    }
    let scaled = ((channel as u64) * (scale as u64)) / 65536;
    if scaled > 255 {
        255
    } else {
        scaled as u8
    }
}

/// What a color choice turns the calculated foreground color into: a fixed
/// color stands as it is; a scale multiplies each channel of a raw RGB
/// foreground color and yields no color for any other foreground.
pub open spec fn spec_color_for_color_choice(fg: Option<Color>, choice: ColorChoice) -> Option<
    Color,
> {
    match choice {
        ColorChoice::Color(color) => Some(color),
        ColorChoice::Scale(scale) => match fg {
            Some(Color::Rgb(r, g, b)) => Some(
                Color::Rgb(
                    spec_scale_channel(r, scale),
                    spec_scale_channel(g, scale),
                    spec_scale_channel(b, scale),
                ),
            ),
            _ => None,
        },
    }
}

/// Apply one color choice to the calculated foreground color.
fn color_for_color_choice(fg: Option<Color>, choice: &ColorChoice) -> (result: Option<Color>)
    ensures
        result == spec_color_for_color_choice(fg, *choice),
{
    match choice {
        ColorChoice::Color(color) => Some(*color),
        ColorChoice::Scale(scale) => match fg {
            Some(Color::Rgb(r, g, b)) => Some(
                Color::Rgb(
                    scale_channel(r, *scale),
                    scale_channel(g, *scale),
                    scale_channel(b, *scale),
                ),
            ),
            _ => None,
        },
    }
}

/// What the configured color choices turn the calculated foreground and
/// background colors into: each choice, when present, replaces its channel's
/// color with a function of the calculated foreground.
pub open spec fn spec_colors_for_color_choices(
    fg: Option<Color>,
    bg: Option<Color>,
    fg_color_choice: Option<ColorChoice>,
    bg_color_choice: Option<ColorChoice>,
) -> (Option<Color>, Option<Color>) {
    let new_fg = if let Some(choice) = fg_color_choice {
        spec_color_for_color_choice(fg, choice)
    } else {
        fg
    };
    let new_bg = if let Some(choice) = bg_color_choice {
        spec_color_for_color_choice(fg, choice)
    } else {
        bg
    };
    (new_fg, new_bg)
}

/// Apply the configured color choices to the calculated foreground and
/// background colors.
pub fn colors_for_color_choices(
    fg: Option<Color>,
    bg: Option<Color>,
    fg_color_choice: &Option<ColorChoice>,
    bg_color_choice: &Option<ColorChoice>,
) -> (result: (Option<Color>, Option<Color>))
    ensures
        result == spec_colors_for_color_choices(fg, bg, *fg_color_choice, *bg_color_choice),
{
    let new_fg = if let Some(choice) = fg_color_choice {
        color_for_color_choice(fg, choice)
    } else {
        fg
    };

    let new_bg = if let Some(choice) = bg_color_choice {
        color_for_color_choice(fg, choice)
    } else {
        bg
    };

    (new_fg, new_bg)
}

/// The smaller of two mathematical integers.
pub open spec fn spec_min(a: int, b: int) -> int {
    if a <= b {
        a
    } else {
        b
    }
}

/// The number of cell rows an image covers: two scanlines per cell row, with
/// an odd final scanline getting a row of its own.
pub open spec fn spec_cell_rows(image: ColorImage) -> int {
    (image.height + 1) / 2
}

/// The pixel of the even scanline covering a cell: the cell's background
/// sample.
pub open spec fn spec_bg_pixel(image: ColorImage, cx: int, cy: int) -> Rgba {
    image.pixel_at(cx, 2 * cy)
}

/// The pixel of the odd scanline covering a cell: the cell's foreground
/// sample, or a fully transparent black pixel when the image ends on an even
/// scanline.
pub open spec fn spec_fg_pixel(image: ColorImage, cx: int, cy: int) -> Rgba {
    if 2 * cy + 1 < image.height {
        image.pixel_at(cx, 2 * cy + 1)
    } else {
        Rgba { r: 0, g: 0, b: 0, a: 0 }
    }
}

/// The conversion pipeline writes the cell at (`cx`, `cy`), relative to the
/// render area: the cell lies within the image's cell grid, within the render
/// area, and within the destination buffer.
pub open spec fn spec_cell_rendered(
    image: ColorImage,
    area: Rect,
    buf_area: Rect,
    cx: int,
    cy: int,
) -> bool {
    &&& 0 <= cx < image.width
    &&& 0 <= cy < spec_cell_rows(image)
    &&& cx < area.width
    &&& cy < area.height
    &&& buf_area.contains(area.x + cx, area.y + cy)
}

/// The absolute position lies in the region of the destination buffer that a
/// render over this image and area may write.
pub open spec fn spec_in_render_region(image: ColorImage, area: Rect, px: int, py: int) -> bool {
    &&& area.x <= px < area.x + spec_min(image.width as int, area.width as int)
    &&& area.y <= py < area.y + spec_min(spec_cell_rows(image), area.height as int)
}

/// The depth test a sampled channel must pass to draw: the sample position
/// lies inside the depth image and the depth buffer, and the sampled depth is
/// at least the recorded one.
pub open spec fn spec_draw_from_image(
    db: RatatuiCameraDepthBuffer,
    di: DepthImage,
    x: int,
    y: int,
) -> bool {
    &&& 0 <= x < di.width
    &&& 0 <= y < di.height
    &&& db.contains(x, y)
    &&& di.depth_at(x, y) >= db.depth_at(x, y)
}

/// The depth recorded at a position after one compare against the sampled
/// depth image: the sample when it passes the test, the old depth otherwise.
pub open spec fn spec_depth_after_compare(
    db: RatatuiCameraDepthBuffer,
    di: DepthImage,
    x: int,
    y: int,
) -> u32 {
    if spec_draw_from_image(db, di, x, y) {
        di.depth_at(x, y)
    } else {
        db.depth_at(x, y)
    }
}

/// The averaged sample covering a cell: the even scanline's pixel averaged
/// channel by channel with the odd one, or the even pixel alone when the
/// image ends on an even scanline.
pub open spec fn spec_avg_pixel(image: ColorImage, cx: int, cy: int) -> Rgba {
    if 2 * cy + 1 < image.height {
        spec_average_rgba(image.pixel_at(cx, 2 * cy), image.pixel_at(cx, 2 * cy + 1))
    } else {
        image.pixel_at(cx, 2 * cy)
    }
}

/// The position a metric selects in a character list: the metric is
/// multiplied by the scale, capped at one (both in fixed point), spread over
/// the list's length, and clamped to the last position.
pub open spec fn spec_character_index(metric: u32, scale: u32, len: int) -> int {
    let capped = spec_min(metric * scale, 0x1_0000_0000);
    let spread = (capped * len) / 0x1_0000_0000;
    if spread < len - 1 {
        spread
    } else {
        len - 1
    }
}

/// Select the position of a character list that a scaled metric calls for: a
/// metric of zero selects the first position, and a metric that reaches one
/// after scaling saturates at the last.
pub fn character_index(metric: u32, scale: u32, len: usize) -> (index: usize)
    requires
        1 <= len,
        len <= 0xFFFF_FFFF,
    ensures
        index == spec_character_index(metric, scale, len as int),
        index < len,
        metric == 0 ==> index == 0,
        metric * scale >= 0x1_0000_0000 ==> index == len - 1,
{
    proof {
        crate::raster::lemma_mul_le(metric as int, scale as int, 0xFFFF_FFFF, 0xFFFF_FFFF);
    }
    let product: u64 = (metric as u64) * (scale as u64);
    let capped: u64 = if product > 0x1_0000_0000 {
        0x1_0000_0000
    } else {
        product
    };
    proof {
        crate::raster::lemma_mul_le(capped as int, len as int, 0x1_0000_0000, 0xFFFF_FFFF);
        crate::raster::lemma_mul_le(capped as int, len as int, 0x1_0000_0000, len as int);
        vstd::arithmetic::div_mod::lemma_div_is_ordered(
            (capped as int) * (len as int),
            0x1_0000_0000 * (len as int),
            0x1_0000_0000,
        );
        vstd::arithmetic::div_mod::lemma_div_multiples_vanish(len as int, 0x1_0000_0000);
    }
    let spread: u64 = (capped * (len as u64)) / 0x1_0000_0000;
    proof {
        if metric == 0 {
            assert((capped as int) * (len as int) == 0) by (nonlinear_arith)
                requires
                    capped == 0,
            ;
        }
    }
    if (spread as usize) < len - 1 {
        spread as usize
    } else {
        len - 1
    }
}

/// A color option restricted to the supported terminal colors: absent colors
/// stay absent.
pub open spec fn spec_support_opt(color: Option<Color>, support: ColorSupport) -> Option<Color> {
    match color {
        Some(color) => Some(spec_color_for_color_support(color, support)),
        None => None,
    }
}

/// Restrict an optional color to the supported terminal colors.
pub fn color_opt_for_color_support(color: Option<Color>, support: ColorSupport) -> (result: Option<
    Color,
>)
    ensures
        result == spec_support_opt(color, support),
{
    match color {
        Some(color) => Some(color_for_color_support(color, support)),
        None => None,
    }
}

} // verus!

use vstd::prelude::*;

use bevy::color::Luminance;

use vstd::arithmetic::power2::pow2;

use crate::camera_edge_detection::RatatuiCameraEdgeDetection;
use crate::camera_strategy::LuminanceConfig;
use crate::cell_buffer::{Cell, CellBuffer, Rect};
use crate::color::Color;
use crate::raster::{ColorImage, DepthImage, EdgeImage, Rgba};
use crate::widget_depth_buffer::RatatuiCameraDepthBuffer;
use crate::widget_utilities::{
    average_in_rgba, character_index, color_opt_for_color_support, colors_for_color_choices,
    replace_detected_edges, spec_avg_pixel, spec_cell_rendered, spec_cell_rows,
    spec_character_index, spec_colors_for_color_choices, spec_depth_after_compare,
    spec_draw_from_image, spec_in_render_region, spec_replace_detected_edges, spec_support_opt,
};

verus! {

/// What bevy_color's `Luminance::luminance` returns for an sRGB color built
/// from four channel bytes, as the raw bit pattern of the returned number:
/// the result depends on the channel bytes alone.
pub uninterp spec fn luminance_bits(r: u8, g: u8, b: u8, a: u8) -> u32;

/// Relies on bevy_color's `Luminance::luminance` for a color built with
/// `Color::srgba_u8`: its documentation promises the perceptual luminance of
/// the color, between 0.0 and 1.0, returned here as its raw bit pattern,
/// computed from the four channel bytes alone.
#[verifier::external_body]
fn srgba_luminance_bits(r: u8, g: u8, b: u8, a: u8) -> (bits: u32)
    ensures
        bits == luminance_bits(r, g, b, a),
{
    bevy::color::Color::srgba_u8(r, g, b, a).luminance().to_bits()
}

/// The fixed-point level a luminance bit pattern stands for: the encoded
/// value scaled by 65536 and truncated. Patterns at or above the encoding of
/// one saturate at the fixed-point one; patterns with the sign bit set
/// (negative values) and values too small for one fixed-point step give zero.
pub open spec fn spec_level_from_bits(bits: u32) -> u32 {
    if bits >= 0x8000_0000 {
        0
    } else if bits >= 0x3F80_0000 {
        65536
    } else {
        let exponent = bits / 0x80_0000;
        let mantissa = bits % 0x80_0000;
        if exponent <= 70 {
            0
        } else {
            let level = (0x80_0000 + mantissa) as nat / pow2((134 - exponent) as nat);
            if level > 65536 {
                65536
            } else {
                level as u32
            }
        }
    }
}

/// Decode a luminance bit pattern into the library's fixed-point scale: the
/// encoded value, scaled by 65536 and truncated, clamped to [0, 65536].
fn level_from_bits(bits: u32) -> (level: u32)
    ensures
        level == spec_level_from_bits(bits),
        level <= 65536,
{
    if bits >= 0x8000_0000 {
        0
    } else if bits >= 0x3F80_0000 {
        65536
    } else {
        let exponent: u32 = bits / 0x80_0000;
        let mantissa: u32 = bits % 0x80_0000;
        if exponent <= 70 {
            0
        } else {
            let value: u64 = 0x80_0000 + (mantissa as u64);
            let shift: u64 = 134 - (exponent as u64);
            proof {
                vstd::bits::lemma_u64_shr_is_div(value, shift);
            }
            let level = value >> shift;
            if level > 65536 {
                65536
            } else {
                level as u32
            }
        }
    }
}

/// The luminance of an averaged sample, in the library's fixed-point scale.
pub open spec fn spec_luminance_level(quad: Rgba) -> u32 {
    spec_level_from_bits(luminance_bits(quad.r, quad.g, quad.b, quad.a))
}

/// The glyph the luminance strategy picks for an averaged sample: the
/// sample's luminance, scaled and capped, selects a position in the
/// configured character list.
pub open spec fn spec_luminance_character(quad: Rgba, config: LuminanceConfig) -> char {
    config.characters.list@[spec_character_index(
        spec_luminance_level(quad),
        config.characters.scale,
        config.characters.list@.len() as int,
    )]
}

/// The foreground color candidate of an averaged sample: nothing for a fully
/// transparent sample, its RGB value otherwise.
pub open spec fn spec_alpha_fg(quad: Rgba) -> Option<Color> {
    if quad.a == 0 {
        None
    } else {
        Some(Color::Rgb(quad.r, quad.g, quad.b))
    }
}

/// Whether a cell of a luminance or depth render passes both of its depth
/// tests and may draw at all; without a depth buffer and depth image every
/// cell passes.
pub open spec fn spec_cell_passes_depth(
    depth_buffer: Option<RatatuiCameraDepthBuffer>,
    depth_image: Option<DepthImage>,
    cx: int,
    cy: int,
) -> bool {
    depth_buffer is Some && depth_image is Some ==> {
        &&& spec_draw_from_image(depth_buffer->0, depth_image->0, cx, 2 * cy)
        &&& spec_draw_from_image(depth_buffer->0, depth_image->0, cx, 2 * cy + 1)
    }
}

/// How a selected glyph and the chosen colors land in a destination cell for
/// the luminance and depth strategies: a present foreground color writes
/// itself and the glyph, a present background color writes itself, and absent
/// colors leave the cell's channels untouched.
pub open spec fn spec_write_fg_bg_cell(
    old_cell: Cell,
    character: char,
    fg: Option<Color>,
    bg: Option<Color>,
) -> Cell {
    Cell {
        symbol: if fg is Some {
            character
        } else {
            old_cell.symbol
        },
        fg: if fg is Some {
            fg->0
        } else {
            old_cell.fg
        },
        bg: if bg is Some {
            bg->0
        } else {
            old_cell.bg
        },
    }
}

/// What the luminance strategy leaves in one destination cell: the two
/// scanlines are averaged; the average's luminance picks the glyph and its
/// RGB value the foreground candidate; a cell that fails a depth test is left
/// untouched, a detected edge replaces glyph and color, the configured color
/// choices run, a transparent cell is skipped, and the written colors are
/// restricted to the supported set.
pub open spec fn spec_luminance_cell(
    widget: RatatuiCameraWidgetLuminance,
    depth_buffer: Option<RatatuiCameraDepthBuffer>,
    cx: int,
    cy: int,
    old_cell: Cell,
) -> Cell {
    let config = widget.strategy_config;
    let quad = spec_avg_pixel(widget.camera_image, cx, cy);
    let character = spec_luminance_character(quad, config);
    let fg = spec_alpha_fg(quad);
    if !spec_cell_passes_depth(depth_buffer, widget.depth_image, cx, cy) {
        old_cell
    } else if widget.sobel_image is Some && widget.edge_detection is Some && !(cx
        < widget.sobel_image->0.width && 2 * cy < widget.sobel_image->0.height) {
        old_cell
    } else {
        let edge = if widget.sobel_image is Some && widget.edge_detection is Some {
            spec_replace_detected_edges(
                character,
                fg,
                widget.sobel_image->0.gradient_at(cx, 2 * cy),
                widget.edge_detection->0,
            )
        } else {
            (character, fg)
        };
        let chosen = spec_colors_for_color_choices(
            edge.1,
            None,
            config.colors.foreground,
            config.colors.background,
        );
        if config.common.transparent && chosen.0 is None {
            old_cell
        } else {
            spec_write_fg_bg_cell(
                old_cell,
                edge.0,
                spec_support_opt(chosen.0, config.colors.support),
                spec_support_opt(chosen.1, config.colors.support),
            )
        }
    }
}

/// The depth recorded at one buffer position after a luminance or depth
/// strategy render: a rendered cell always compares its even sub-row, and
/// compares its odd sub-row only when the even one passed; every other
/// position is untouched.
pub open spec fn spec_two_pass_depth_after(
    image: ColorImage,
    depth_image: Option<DepthImage>,
    area: Rect,
    buf_area: Rect,
    depth_buffer: RatatuiCameraDepthBuffer,
    x: int,
    y: int,
) -> u32 {
    if depth_image is Some && spec_cell_rendered(image, area, buf_area, x, y / 2) {
        if y == 2 * (y / 2) {
            spec_depth_after_compare(depth_buffer, depth_image->0, x, y)
        } else if spec_draw_from_image(depth_buffer, depth_image->0, x, y - 1) {
            spec_depth_after_compare(depth_buffer, depth_image->0, x, y)
        } else {
            depth_buffer.depth_at(x, y)
        }
    } else {
        depth_buffer.depth_at(x, y)
    }
}

/// Everything one luminance render promises of the destination grid and the
/// depth buffer: untouched cells outside the drawn region, the per-cell
/// outcome inside it, and the pointwise depth record afterward.
pub open spec fn spec_luminance_render_effect(
    widget: RatatuiCameraWidgetLuminance,
    area: Rect,
    old_buf: CellBuffer,
    new_buf: CellBuffer,
    old_db: Option<RatatuiCameraDepthBuffer>,
    new_db: Option<RatatuiCameraDepthBuffer>,
) -> bool {
    &&& new_buf.wf()
    &&& new_buf.area == old_buf.area
    &&& forall|px: int, py: int|
        old_buf.area.contains(px, py) && !spec_in_render_region(
            widget.camera_image,
            area,
            px,
            py,
        ) ==> new_buf.cell_at(px, py) == old_buf.cell_at(px, py)
    &&& forall|cx: int, cy: int|
        spec_cell_rendered(widget.camera_image, area, old_buf.area, cx, cy) ==> new_buf.cell_at(
            area.x + cx,
            area.y + cy,
        ) == spec_luminance_cell(widget, old_db, cx, cy, old_buf.cell_at(area.x + cx, area.y + cy))
    &&& old_db is None || widget.depth_image is None ==> new_db == old_db
    &&& old_db is Some && widget.depth_image is Some ==> {
        &&& new_db is Some
        &&& new_db->0.wf()
        &&& new_db->0.spec_width() == old_db->0.spec_width()
        &&& new_db->0.spec_height() == old_db->0.spec_height()
        &&& forall|x: int, y: int|
            old_db->0.contains(x, y) ==> new_db->0.depth_at(x, y) == spec_two_pass_depth_after(
                widget.camera_image,
                widget.depth_image,
                area,
                old_buf.area,
                old_db->0,
                x,
                y,
            )
    }
}

/// The luminance rendering strategy: each cell's glyph is selected from an
/// ordered character list by the perceived brightness of the averaged pixels
/// the cell covers.
#[derive(Debug)]
pub struct RatatuiCameraWidgetLuminance {
    /// The camera's rendered color image.
    pub camera_image: ColorImage,
    /// The camera's rendered depth values, if depth occlusion is in use.
    pub depth_image: Option<DepthImage>,
    /// The camera's edge-detection raster, if edge detection is in use.
    pub sobel_image: Option<EdgeImage>,
    /// Configuration of the luminance strategy.
    pub strategy_config: LuminanceConfig,
    /// Edge-detection settings, if edge detection is in use.
    pub edge_detection: Option<RatatuiCameraEdgeDetection>,
}

impl RatatuiCameraWidgetLuminance {
    /// Every raster the widget holds is well-formed and the configured
    /// character list is usable: not empty, as character selection requires.
    pub open spec fn wf(self) -> bool {
        &&& self.camera_image.wf()
        &&& self.depth_image is Some ==> self.depth_image->0.wf()
        &&& self.sobel_image is Some ==> self.sobel_image->0.wf()
        &&& 1 <= self.strategy_config.characters.list@.len() <= 0xFFFF_FFFF
    }

    /// Bundle the images and configuration for one luminance render.
    pub fn new(
        camera_image: ColorImage,
        depth_image: Option<DepthImage>,
        sobel_image: Option<EdgeImage>,
        strategy_config: LuminanceConfig,
        edge_detection: Option<RatatuiCameraEdgeDetection>,
    ) -> (widget: RatatuiCameraWidgetLuminance)
        ensures
            widget == (RatatuiCameraWidgetLuminance {
                camera_image,
                depth_image,
                sobel_image,
                strategy_config,
                edge_detection,
            }),
    {
        RatatuiCameraWidgetLuminance {
            camera_image,
            depth_image,
            sobel_image,
            strategy_config,
            edge_detection,
        }
    }

    /// Convert the color image into one cell per pair of scanlines: average
    /// the scanlines, select a glyph by luminance, apply depth occlusion and
    /// the edge overlay, run the configured color choices, and write the
    /// surviving cells into the buffer. Cells outside the given area, outside
    /// the buffer or beyond the image are left untouched.
    pub fn render(
        &self,
        area: Rect,
        buf: &mut CellBuffer,
        depth_buffer: &mut Option<RatatuiCameraDepthBuffer>,
    )
        requires
            self.wf(),
            old(buf).wf(),
            *old(depth_buffer) is Some ==> old(depth_buffer)->0.wf(),
        ensures
            spec_luminance_render_effect(
                *self,
                area,
                *old(buf),
                *final(buf),
                *old(depth_buffer),
                *final(depth_buffer),
            ),
    {
        let width = self.camera_image.width;
        let rows = (self.camera_image.height + 1) / 2;
        let mut cy: u32 = 0;
        while cy < rows
            invariant
                self.wf(),
                *old(depth_buffer) is Some ==> old(depth_buffer)->0.wf(),
                rows == spec_cell_rows(self.camera_image),
                width == self.camera_image.width,
                cy <= rows,
                buf.wf(),
                buf.area == old(buf).area,
                forall|px: int, py: int|
                    old(buf).area.contains(px, py) && !spec_in_render_region(
                        self.camera_image,
                        area,
                        px,
                        py,
                    ) ==> buf.cell_at(px, py) == old(buf).cell_at(px, py),
                forall|icx: int, icy: int|
                    spec_cell_rendered(self.camera_image, area, old(buf).area, icx, icy) ==> if icy
                        < cy {
                        buf.cell_at(area.x + icx, area.y + icy) == spec_luminance_cell(
                            *self,
                            *old(depth_buffer),
                            icx,
                            icy,
                            old(buf).cell_at(area.x + icx, area.y + icy),
                        )
                    } else {
                        buf.cell_at(area.x + icx, area.y + icy) == old(buf).cell_at(
                            area.x + icx,
                            area.y + icy,
                        )
                    },
                *old(depth_buffer) is None || self.depth_image is None ==> *depth_buffer == *old(
                    depth_buffer,
                ),
                *old(depth_buffer) is Some && self.depth_image is Some ==> {
                    &&& *depth_buffer is Some
                    &&& depth_buffer->0.wf()
                    &&& depth_buffer->0.spec_width() == old(depth_buffer)->0.spec_width()
                    &&& depth_buffer->0.spec_height() == old(depth_buffer)->0.spec_height()
                    &&& forall|x: int, y: int|
                        old(depth_buffer)->0.contains(x, y) ==> depth_buffer->0.depth_at(x, y)
                            == if y / 2 < cy {
                            spec_two_pass_depth_after(
                                self.camera_image,
                                self.depth_image,
                                area,
                                old(buf).area,
                                old(depth_buffer)->0,
                                x,
                                y,
                            )
                        } else {
                            old(depth_buffer)->0.depth_at(x, y)
                        }
                },
            decreases rows - cy,
        {
            let mut cx: u32 = 0;
            while cx < width
                invariant
                    self.wf(),
                    *old(depth_buffer) is Some ==> old(depth_buffer)->0.wf(),
                    rows == spec_cell_rows(self.camera_image),
                    width == self.camera_image.width,
                    cy < rows,
                    cx <= width,
                    buf.wf(),
                    buf.area == old(buf).area,
                    forall|px: int, py: int|
                        old(buf).area.contains(px, py) && !spec_in_render_region(
                            self.camera_image,
                            area,
                            px,
                            py,
                        ) ==> buf.cell_at(px, py) == old(buf).cell_at(px, py),
                    forall|icx: int, icy: int|
                        spec_cell_rendered(self.camera_image, area, old(buf).area, icx, icy)
                            ==> if icy < cy || (icy == cy && icx < cx) {
                            buf.cell_at(area.x + icx, area.y + icy) == spec_luminance_cell(
                                *self,
                                *old(depth_buffer),
                                icx,
                                icy,
                                old(buf).cell_at(area.x + icx, area.y + icy),
                            )
                        } else {
                            buf.cell_at(area.x + icx, area.y + icy) == old(buf).cell_at(
                                area.x + icx,
                                area.y + icy,
                            )
                        },
                    *old(depth_buffer) is None || self.depth_image is None ==> *depth_buffer
                        == *old(depth_buffer),
                    *old(depth_buffer) is Some && self.depth_image is Some ==> {
                        &&& *depth_buffer is Some
                        &&& depth_buffer->0.wf()
                        &&& depth_buffer->0.spec_width() == old(depth_buffer)->0.spec_width()
                        &&& depth_buffer->0.spec_height() == old(depth_buffer)->0.spec_height()
                        &&& forall|x: int, y: int|
                            old(depth_buffer)->0.contains(x, y) ==> depth_buffer->0.depth_at(x, y)
                                == if y / 2 < cy || (y / 2 == cy && x < cx) {
                                spec_two_pass_depth_after(
                                    self.camera_image,
                                    self.depth_image,
                                    area,
                                    old(buf).area,
                                    old(depth_buffer)->0,
                                    x,
                                    y,
                                )
                            } else {
                                old(depth_buffer)->0.depth_at(x, y)
                            }
                    },
                decreases width - cx,
            {
                self.render_cell(area, buf, depth_buffer, cx, cy);
                cx = cx + 1;
            }
            cy = cy + 1;
        }
    }

    /// Render one cell of the grid: average the scanlines, select the glyph,
    /// run the depth tests, apply the edge overlay and the color choices, and
    /// write the outcome.
    fn render_cell(
        &self,
        area: Rect,
        buf: &mut CellBuffer,
        depth_buffer: &mut Option<RatatuiCameraDepthBuffer>,
        cx: u32,
        cy: u32,
    )
        requires
            self.wf(),
            old(buf).wf(),
            *old(depth_buffer) is Some ==> old(depth_buffer)->0.wf(),
            cx < self.camera_image.width,
            cy < spec_cell_rows(self.camera_image),
        ensures
            final(buf).wf(),
            final(buf).area == old(buf).area,
            spec_cell_rendered(self.camera_image, area, old(buf).area, cx as int, cy as int)
                ==> final(buf).cell_at(area.x + cx, area.y + cy) == spec_luminance_cell(
                *self,
                *old(depth_buffer),
                cx as int,
                cy as int,
                old(buf).cell_at(area.x + cx, area.y + cy),
            ),
            forall|px: int, py: int|
                old(buf).area.contains(px, py) && !(px == area.x + cx && py == area.y + cy)
                    ==> final(buf).cell_at(px, py) == old(buf).cell_at(px, py),
            !spec_cell_rendered(self.camera_image, area, old(buf).area, cx as int, cy as int)
                ==> *final(buf) == *old(buf),
            *old(depth_buffer) is None || self.depth_image is None ==> *final(depth_buffer)
                == *old(depth_buffer),
            *old(depth_buffer) is Some && self.depth_image is Some ==> {
                &&& *final(depth_buffer) is Some
                &&& final(depth_buffer)->0.wf()
                &&& final(depth_buffer)->0.spec_width() == old(depth_buffer)->0.spec_width()
                &&& final(depth_buffer)->0.spec_height() == old(depth_buffer)->0.spec_height()
                &&& forall|x: int, y: int|
                    old(depth_buffer)->0.contains(x, y) ==> final(depth_buffer)->0.depth_at(x, y)
                        == if x == cx && (y == 2 * cy || y == 2 * cy + 1) && spec_cell_rendered(
                        self.camera_image,
                        area,
                        old(buf).area,
                        cx as int,
                        cy as int,
                    ) {
                        spec_two_pass_depth_after(
                            self.camera_image,
                            self.depth_image,
                            area,
                            old(buf).area,
                            old(depth_buffer)->0,
                            x,
                            y,
                        )
                    } else {
                        old(depth_buffer)->0.depth_at(x, y)
                    }
            },
    {
        if cx >= area.width as u32 || cy >= area.height as u32 {
            return ;
        }
        let px = area.x as u32 + cx;
        let py = area.y as u32 + cy;
        if px > 0xFFFF || py > 0xFFFF {
            return ;
        }
        let Some(old_cell) = buf.cell(px as u16, py as u16) else {
            return ;
        };

        let even_pixel = self.camera_image.pixel(cx, 2 * cy);
        let quad = if 2 * cy + 1 < self.camera_image.height {
            average_in_rgba(even_pixel, self.camera_image.pixel(cx, 2 * cy + 1))
        } else {
            even_pixel
        };

        let level = level_from_bits(srgba_luminance_bits(quad.r, quad.g, quad.b, quad.a));
        let index = character_index(
            level,
            self.strategy_config.characters.scale,
            self.strategy_config.characters.list.len(),
        );
        let mut character = self.strategy_config.characters.list[index];
        let mut fg = if quad.a == 0 {
            None
        } else {
            Some(Color::Rgb(quad.r, quad.g, quad.b))
        };
        let mut bg: Option<Color> = None;

        if let Some(depth_image) = &self.depth_image {
            if let Some(db) = depth_buffer {
                let draw_even = match db.compare_and_update_from_image(cx, 2 * cy, depth_image) {
                    Some(draw) => draw,
                    None => false,
                };
                if !draw_even {
                    return ;
                }
                let draw_odd = match db.compare_and_update_from_image(
                    cx,
                    2 * cy + 1,
                    depth_image,
                ) {
                    Some(draw) => draw,
                    None => false,
                };
                if !draw_odd {
                    return ;
                }
            }
        }

        if let (Some(sobel_image), Some(edge_detection)) = (&self.sobel_image, &self.edge_detection) {
            if !(cx < sobel_image.width && 2 * cy < sobel_image.height) {
                return ;
            }
            let gradient = sobel_image.gradient(cx, 2 * cy);
            let (edge_character, edge_fg) = replace_detected_edges(
                character,
                fg,
                gradient,
                edge_detection,
            );
            character = edge_character;
            fg = edge_fg;
        }

        let chosen = colors_for_color_choices(
            fg,
            bg,
            &self.strategy_config.colors.foreground,
            &self.strategy_config.colors.background,
        );
        fg = chosen.0;
        bg = chosen.1;

        if self.strategy_config.common.transparent && fg.is_none() {
            return ;
        }

        let fg = color_opt_for_color_support(fg, self.strategy_config.colors.support);
        let bg = color_opt_for_color_support(bg, self.strategy_config.colors.support);

        let mut cell = old_cell;
        if let Some(color) = fg {
            cell.fg = color;
            cell.symbol = character;
        }
        if let Some(color) = bg {
            cell.bg = color;
        }
        buf.put_cell(px as u16, py as u16, cell);
    }
}

} // verus!

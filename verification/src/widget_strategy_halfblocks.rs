use vstd::prelude::*;

use crate::camera_edge_detection::RatatuiCameraEdgeDetection;
use crate::camera_strategy::HalfBlocksConfig;
use crate::cell_buffer::{Cell, CellBuffer, Rect};
use crate::color::Color;
use crate::color_support::{color_for_color_support, spec_color_for_color_support, ColorSupport};
use crate::raster::{ColorImage, DepthImage, EdgeImage, Rgba};
use crate::widget_depth_buffer::RatatuiCameraDepthBuffer;
use crate::widget_utilities::{
    replace_detected_edges, spec_bg_pixel, spec_cell_rendered, spec_cell_rows,
    spec_depth_after_compare, spec_draw_from_image, spec_fg_pixel, spec_in_render_region,
    spec_replace_detected_edges,
};

verus! {

/// The lower-half-block glyph used by the halfblocks strategy.
pub const HALF_BLOCK: char = '\u{2584}';

/// The candidate color of one halfblock channel: the transparent sentinel
/// when transparency is enabled and the sample is fully transparent, the
/// sample's RGB value otherwise.
pub open spec fn spec_candidate_color(pixel: Rgba, transparent: bool) -> Color {
    if transparent && pixel.a == 0 {
        Color::Reset
    } else {
        Color::Rgb(pixel.r, pixel.g, pixel.b)
    }
}

/// Whether one halfblock channel passes its depth test: with a depth buffer
/// and depth image present the sampled depth must be at least the recorded
/// one, otherwise the channel always draws.
pub open spec fn spec_channel_draws(
    depth_buffer: Option<RatatuiCameraDepthBuffer>,
    depth_image: Option<DepthImage>,
    x: int,
    y: int,
) -> bool {
    if depth_buffer is Some && depth_image is Some {
        spec_draw_from_image(depth_buffer->0, depth_image->0, x, y)
    } else {
        true
    }
}

/// How the computed glyph and channel colors land in a destination cell: the
/// background is written when its depth test passes and it is not the
/// transparent sentinel, the foreground likewise, and the glyph is written
/// exactly when the foreground is. Written colors are first restricted to the
/// supported terminal colors.
pub open spec fn spec_write_half_cell(
    old_cell: Cell,
    character: char,
    fg: Color,
    bg: Color,
    draw_fg: bool,
    draw_bg: bool,
    support: ColorSupport,
) -> Cell {
    let write_fg = draw_fg && !(fg is Reset);
    let write_bg = draw_bg && !(bg is Reset);
    Cell {
        symbol: if write_fg {
            character
        } else {
            old_cell.symbol
        },
        fg: if write_fg {
            spec_color_for_color_support(fg, support)
        } else {
            old_cell.fg
        },
        bg: if write_bg {
            spec_color_for_color_support(bg, support)
        } else {
            old_cell.bg
        },
    }
}

/// What the halfblocks strategy leaves in one destination cell: the even
/// scanline sample becomes the background, the odd one the foreground, each
/// channel subject to transparency and to its own depth test; a detected edge
/// replaces the glyph and foreground color; a cell whose edge sample would
/// lie outside the edge raster is left untouched.
pub open spec fn spec_halfblocks_cell(
    widget: RatatuiCameraWidgetHalf,
    depth_buffer: Option<RatatuiCameraDepthBuffer>,
    cx: int,
    cy: int,
    old_cell: Cell,
) -> Cell {
    let image = widget.camera_image;
    let transparent = widget.strategy_config.common.transparent;
    let support = widget.strategy_config.colors.support;
    let bg = spec_candidate_color(spec_bg_pixel(image, cx, cy), transparent);
    let fg = spec_candidate_color(spec_fg_pixel(image, cx, cy), transparent);
    let draw_bg = spec_channel_draws(depth_buffer, widget.depth_image, cx, 2 * cy);
    let draw_fg = spec_channel_draws(depth_buffer, widget.depth_image, cx, 2 * cy + 1);
    if widget.sobel_image is Some && widget.edge_detection is Some {
        let sobel = widget.sobel_image->0;
        if !(cx < sobel.width && 2 * cy < sobel.height) {
            old_cell
        } else {
            let edge = spec_replace_detected_edges(
                HALF_BLOCK,
                Some(fg),
                sobel.gradient_at(cx, 2 * cy),
                widget.edge_detection->0,
            );
            let edge_fg = if edge.1 is Some {
                edge.1->0
            } else {
                fg
            };
            spec_write_half_cell(old_cell, edge.0, edge_fg, bg, draw_fg, draw_bg, support)
        }
    } else {
        spec_write_half_cell(old_cell, HALF_BLOCK, fg, bg, draw_fg, draw_bg, support)
    }
}

/// The depth recorded at one buffer position after a halfblocks render: the
/// position belongs to the cell covering it (two sub-rows per cell row); if
/// that cell is rendered the position was compared against the sampled depth,
/// otherwise it is untouched.
pub open spec fn spec_halfblocks_depth_after(
    widget: RatatuiCameraWidgetHalf,
    area: Rect,
    buf_area: Rect,
    depth_buffer: RatatuiCameraDepthBuffer,
    x: int,
    y: int,
) -> u32 {
    if widget.depth_image is Some && spec_cell_rendered(
        widget.camera_image,
        area,
        buf_area,
        x,
        y / 2,
    ) {
        spec_depth_after_compare(depth_buffer, widget.depth_image->0, x, y)
    } else {
        depth_buffer.depth_at(x, y)
    }
}

/// Everything one halfblocks render promises of the destination grid and the
/// depth buffer: untouched cells outside the drawn region, the per-cell
/// outcome inside it, and the pointwise depth record afterward.
pub open spec fn spec_halfblocks_render_effect(
    widget: RatatuiCameraWidgetHalf,
    area: Rect,
    old_buf: CellBuffer,
    new_buf: CellBuffer,
    old_db: Option<RatatuiCameraDepthBuffer>,
    new_db: Option<RatatuiCameraDepthBuffer>,
) -> bool {
    &&& new_buf.wf()
    &&& new_buf.area == old_buf.area
    &&& forall|px: int, py: int|
        old_buf.area.contains(px, py) && !spec_in_render_region(
            widget.camera_image,
            area,
            px,
            py,
        ) ==> new_buf.cell_at(px, py) == old_buf.cell_at(px, py)
    &&& forall|cx: int, cy: int|
        spec_cell_rendered(widget.camera_image, area, old_buf.area, cx, cy) ==> new_buf.cell_at(
            area.x + cx,
            area.y + cy,
        ) == spec_halfblocks_cell(widget, old_db, cx, cy, old_buf.cell_at(area.x + cx, area.y + cy))
    &&& old_db is None || widget.depth_image is None ==> new_db == old_db
    &&& old_db is Some && widget.depth_image is Some ==> {
        &&& new_db is Some
        &&& new_db->0.wf()
        &&& new_db->0.spec_width() == old_db->0.spec_width()
        &&& new_db->0.spec_height() == old_db->0.spec_height()
        &&& forall|x: int, y: int|
            old_db->0.contains(x, y) ==> new_db->0.depth_at(x, y) == spec_halfblocks_depth_after(
                widget,
                area,
                old_buf.area,
                old_db->0,
                x,
                y,
            )
    }
}

/// The halfblocks rendering strategy: each terminal cell shows two vertically
/// stacked pixels, the upper one as the cell's background color and the lower
/// one as the foreground color of a lower-half-block glyph.
#[derive(Debug)]
pub struct RatatuiCameraWidgetHalf {
    /// The camera's rendered color image.
    pub camera_image: ColorImage,
    /// The camera's rendered depth values, if depth occlusion is in use.
    pub depth_image: Option<DepthImage>,
    /// The camera's edge-detection raster, if edge detection is in use.
    pub sobel_image: Option<EdgeImage>,
    /// Configuration of the halfblocks strategy.
    pub strategy_config: HalfBlocksConfig,
    /// Edge-detection settings, if edge detection is in use.
    pub edge_detection: Option<RatatuiCameraEdgeDetection>,
}

impl RatatuiCameraWidgetHalf {
    /// Every raster the widget holds is well-formed, and the depth and edge
    /// rasters cover the color image.
    pub open spec fn wf(self) -> bool {
        &&& self.camera_image.wf()
        &&& self.depth_image is Some ==> self.depth_image->0.wf()
        &&& self.sobel_image is Some ==> self.sobel_image->0.wf()
    }

    /// Bundle the images and configuration for one halfblocks render.
    pub fn new(
        camera_image: ColorImage,
        depth_image: Option<DepthImage>,
        sobel_image: Option<EdgeImage>,
        strategy_config: HalfBlocksConfig,
        edge_detection: Option<RatatuiCameraEdgeDetection>,
    ) -> (widget: RatatuiCameraWidgetHalf)
        ensures
            widget == (RatatuiCameraWidgetHalf {
                camera_image,
                depth_image,
                sobel_image,
                strategy_config,
                edge_detection,
            }),
    {
        RatatuiCameraWidgetHalf {
            camera_image,
            depth_image,
            sobel_image,
            strategy_config,
            edge_detection,
        }
    }

    /// Convert the color image into one cell on the destination grid for each
    /// pair of scanlines, apply depth occlusion per channel and the edge
    /// overlay per cell, restrict the colors to the supported set, and write
    /// the result into the buffer. Cells outside the given area, outside the
    /// buffer or beyond the image are left untouched.
    pub fn render(
        &self,
        area: Rect,
        buf: &mut CellBuffer,
        depth_buffer: &mut Option<RatatuiCameraDepthBuffer>,
    )
        requires
            self.wf(),
            old(buf).wf(),
            *old(depth_buffer) is Some ==> old(depth_buffer)->0.wf(),
        ensures
            spec_halfblocks_render_effect(
                *self,
                area,
                *old(buf),
                *final(buf),
                *old(depth_buffer),
                *final(depth_buffer),
            ),
    {
        let width = self.camera_image.width;
        let rows = (self.camera_image.height + 1) / 2;
        let mut cy: u32 = 0;
        while cy < rows
            invariant
                self.wf(),
                *old(depth_buffer) is Some ==> old(depth_buffer)->0.wf(),
                rows == spec_cell_rows(self.camera_image),
                width == self.camera_image.width,
                cy <= rows,
                buf.wf(),
                buf.area == old(buf).area,
                forall|px: int, py: int|
                    old(buf).area.contains(px, py) && !spec_in_render_region(
                        self.camera_image,
                        area,
                        px,
                        py,
                    ) ==> buf.cell_at(px, py) == old(buf).cell_at(px, py),
                forall|icx: int, icy: int|
                    spec_cell_rendered(self.camera_image, area, old(buf).area, icx, icy) ==> if icy
                        < cy {
                        buf.cell_at(area.x + icx, area.y + icy) == spec_halfblocks_cell(
                            *self,
                            *old(depth_buffer),
                            icx,
                            icy,
                            old(buf).cell_at(area.x + icx, area.y + icy),
                        )
                    } else {
                        buf.cell_at(area.x + icx, area.y + icy) == old(buf).cell_at(
                            area.x + icx,
                            area.y + icy,
                        )
                    },
                *old(depth_buffer) is None || self.depth_image is None ==> *depth_buffer == *old(
                    depth_buffer,
                ),
                *old(depth_buffer) is Some && self.depth_image is Some ==> {
                    &&& *depth_buffer is Some
                    &&& depth_buffer->0.wf()
                    &&& depth_buffer->0.spec_width() == old(depth_buffer)->0.spec_width()
                    &&& depth_buffer->0.spec_height() == old(depth_buffer)->0.spec_height()
                    &&& forall|x: int, y: int|
                        old(depth_buffer)->0.contains(x, y) ==> depth_buffer->0.depth_at(x, y)
                            == if y / 2 < cy {
                            spec_halfblocks_depth_after(
                                *self,
                                area,
                                old(buf).area,
                                old(depth_buffer)->0,
                                x,
                                y,
                            )
                        } else {
                            old(depth_buffer)->0.depth_at(x, y)
                        }
                },
            decreases rows - cy,
        {
            let mut cx: u32 = 0;
            while cx < width
                invariant
                    self.wf(),
                    *old(depth_buffer) is Some ==> old(depth_buffer)->0.wf(),
                    rows == spec_cell_rows(self.camera_image),
                    width == self.camera_image.width,
                    cy < rows,
                    cx <= width,
                    buf.wf(),
                    buf.area == old(buf).area,
                    forall|px: int, py: int|
                        old(buf).area.contains(px, py) && !spec_in_render_region(
                            self.camera_image,
                            area,
                            px,
                            py,
                        ) ==> buf.cell_at(px, py) == old(buf).cell_at(px, py),
                    forall|icx: int, icy: int|
                        spec_cell_rendered(self.camera_image, area, old(buf).area, icx, icy)
                            ==> if icy < cy || (icy == cy && icx < cx) {
                            buf.cell_at(area.x + icx, area.y + icy) == spec_halfblocks_cell(
                                *self,
                                *old(depth_buffer),
                                icx,
                                icy,
                                old(buf).cell_at(area.x + icx, area.y + icy),
                            )
                        } else {
                            buf.cell_at(area.x + icx, area.y + icy) == old(buf).cell_at(
                                area.x + icx,
                                area.y + icy,
                            )
                        },
                    *old(depth_buffer) is None || self.depth_image is None ==> *depth_buffer
                        == *old(depth_buffer),
                    *old(depth_buffer) is Some && self.depth_image is Some ==> {
                        &&& *depth_buffer is Some
                        &&& depth_buffer->0.wf()
                        &&& depth_buffer->0.spec_width() == old(depth_buffer)->0.spec_width()
                        &&& depth_buffer->0.spec_height() == old(depth_buffer)->0.spec_height()
                        &&& forall|x: int, y: int|
                            old(depth_buffer)->0.contains(x, y) ==> depth_buffer->0.depth_at(x, y)
                                == if y / 2 < cy || (y / 2 == cy && x < cx) {
                                spec_halfblocks_depth_after(
                                    *self,
                                    area,
                                    old(buf).area,
                                    old(depth_buffer)->0,
                                    x,
                                    y,
                                )
                            } else {
                                old(depth_buffer)->0.depth_at(x, y)
                            }
                    },
                decreases width - cx,
            {
                self.render_cell(area, buf, depth_buffer, cx, cy);
                cx = cx + 1;
            }
            cy = cy + 1;
        }
    }

    /// Render one cell of the grid: sample the two scanlines, run the depth
    /// tests, apply the edge overlay and write the outcome.
    fn render_cell(
        &self,
        area: Rect,
        buf: &mut CellBuffer,
        depth_buffer: &mut Option<RatatuiCameraDepthBuffer>,
        cx: u32,
        cy: u32,
    )
        requires
            self.wf(),
            old(buf).wf(),
            *old(depth_buffer) is Some ==> old(depth_buffer)->0.wf(),
            cx < self.camera_image.width,
            cy < spec_cell_rows(self.camera_image),
        ensures
            final(buf).wf(),
            final(buf).area == old(buf).area,
            spec_cell_rendered(self.camera_image, area, old(buf).area, cx as int, cy as int)
                ==> final(buf).cell_at(area.x + cx, area.y + cy) == spec_halfblocks_cell(
                *self,
                *old(depth_buffer),
                cx as int,
                cy as int,
                old(buf).cell_at(area.x + cx, area.y + cy),
            ),
            forall|px: int, py: int|
                old(buf).area.contains(px, py) && !(px == area.x + cx && py == area.y + cy)
                    ==> final(buf).cell_at(px, py) == old(buf).cell_at(px, py),
            !spec_cell_rendered(self.camera_image, area, old(buf).area, cx as int, cy as int)
                ==> *final(buf) == *old(buf),
            *old(depth_buffer) is None || self.depth_image is None ==> *final(depth_buffer)
                == *old(depth_buffer),
            *old(depth_buffer) is Some && self.depth_image is Some ==> {
                &&& *final(depth_buffer) is Some
                &&& final(depth_buffer)->0.wf()
                &&& final(depth_buffer)->0.spec_width() == old(depth_buffer)->0.spec_width()
                &&& final(depth_buffer)->0.spec_height() == old(depth_buffer)->0.spec_height()
                &&& forall|x: int, y: int|
                    old(depth_buffer)->0.contains(x, y) ==> final(depth_buffer)->0.depth_at(x, y)
                        == if x == cx && (y == 2 * cy || y == 2 * cy + 1) && spec_cell_rendered(
                        self.camera_image,
                        area,
                        old(buf).area,
                        cx as int,
                        cy as int,
                    ) {
                        spec_depth_after_compare(
                            old(depth_buffer)->0,
                            self.depth_image->0,
                            x,
                            y,
                        )
                    } else {
                        old(depth_buffer)->0.depth_at(x, y)
                    }
            },
    {
        if cx >= area.width as u32 || cy >= area.height as u32 {
            return ;
        }
        let px = area.x as u32 + cx;
        let py = area.y as u32 + cy;
        if px > 0xFFFF || py > 0xFFFF {
            return ;
        }
        let Some(old_cell) = buf.cell(px as u16, py as u16) else {
            return ;
        };

        let bg_pixel = self.camera_image.pixel(cx, 2 * cy);
        let fg_pixel = if 2 * cy + 1 < self.camera_image.height {
            self.camera_image.pixel(cx, 2 * cy + 1)
        } else {
            Rgba { r: 0, g: 0, b: 0, a: 0 }
        };

        let transparent = self.strategy_config.common.transparent;
        let bg = if transparent && bg_pixel.a == 0 {
            Color::Reset
        } else {
            Color::Rgb(bg_pixel.r, bg_pixel.g, bg_pixel.b)
        };
        let mut fg = if transparent && fg_pixel.a == 0 {
            Color::Reset
        } else {
            Color::Rgb(fg_pixel.r, fg_pixel.g, fg_pixel.b)
        };

        let mut draw_bg = true;
        let mut draw_fg = true;
        if let Some(depth_image) = &self.depth_image {
            if let Some(db) = depth_buffer {
                draw_bg = match db.compare_and_update_from_image(cx, 2 * cy, depth_image) {
                    Some(draw) => draw,
                    None => false,
                };
                draw_fg = match db.compare_and_update_from_image(cx, 2 * cy + 1, depth_image) {
                    Some(draw) => draw,
                    None => false,
                };
            }
        }

        let mut character = HALF_BLOCK;

        if let (Some(sobel_image), Some(edge_detection)) = (&self.sobel_image, &self.edge_detection) {
            if !(cx < sobel_image.width && 2 * cy < sobel_image.height) {
                return ;
            }
            let gradient = sobel_image.gradient(cx, 2 * cy);
            let (edge_character, edge_fg) = replace_detected_edges(
                character,
                Some(fg),
                gradient,
                edge_detection,
            );
            character = edge_character;
            fg = match edge_fg {
                Some(color) => color,
                None => fg,
            };
        }

        let mut cell = old_cell;
        let write_fg = draw_fg && !matches!(fg, Color::Reset);
        let write_bg = draw_bg && !matches!(bg, Color::Reset);
        if write_fg {
            cell.symbol = character;
            cell.fg = color_for_color_support(fg, self.strategy_config.colors.support);
        }
        if write_bg {
            cell.bg = color_for_color_support(bg, self.strategy_config.colors.support);
        }
        buf.put_cell(px as u16, py as u16, cell);
    }
}

} // verus!

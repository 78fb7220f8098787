use vstd::prelude::*;

use crate::camera_edge_detection::RatatuiCameraEdgeDetection;
use crate::camera_strategy::DepthConfig;
use crate::cell_buffer::{Cell, CellBuffer, Rect};
use crate::color::Color;
use crate::raster::{ColorImage, DepthImage, EdgeImage};
use crate::widget_depth_buffer::RatatuiCameraDepthBuffer;
use crate::widget_strategy_luminance::{
    spec_cell_passes_depth, spec_two_pass_depth_after, spec_write_fg_bg_cell,
};
use crate::widget_utilities::{
    average_in_rgba, character_index, color_opt_for_color_support, colors_for_color_choices,
    replace_detected_edges, spec_avg_pixel, spec_cell_rendered, spec_cell_rows,
    spec_character_index, spec_colors_for_color_choices, spec_in_render_region,
    spec_replace_detected_edges, spec_support_opt,
};

verus! {

/// The depth metric of a cell: the depth sampled at the cell's odd scanline,
/// or at the even one when the image ends on an even scanline. Depth values
/// are fixed point, with 65536 at the near plane.
pub open spec fn spec_cell_depth(depth_image: DepthImage, cx: int, cy: int) -> u32 {
    if 2 * cy + 1 < depth_image.height {
        depth_image.depth_at(cx, 2 * cy + 1)
    } else {
        depth_image.depth_at(cx, 2 * cy)
    }
}

/// What the depth strategy leaves in one destination cell: the cell's depth
/// metric picks the glyph; the averaged color sample gives the foreground
/// candidate unless it is fully transparent or the depth is exactly zero; a
/// cell that fails a depth test is left untouched, a detected edge replaces
/// glyph and color, the configured color choices run, a transparent cell is
/// skipped, and the written colors are restricted to the supported set.
pub open spec fn spec_depth_cell(
    widget: RatatuiCameraWidgetDepth,
    depth_buffer: Option<RatatuiCameraDepthBuffer>,
    cx: int,
    cy: int,
    old_cell: Cell,
) -> Cell {
    let config = widget.strategy_config;
    let depth_image = widget.depth_image->0;
    let quad = spec_avg_pixel(widget.camera_image, cx, cy);
    let depth = spec_cell_depth(depth_image, cx, cy);
    let character = config.characters.list@[spec_character_index(
        depth,
        config.characters.scale,
        config.characters.list@.len() as int,
    )];
    let fg = if quad.a == 0 || depth == 0 {
        None
    } else {
        Some(Color::Rgb(quad.r, quad.g, quad.b))
    };
    if !spec_cell_passes_depth(depth_buffer, widget.depth_image, cx, cy) {
        old_cell
    } else if widget.sobel_image is Some && widget.edge_detection is Some && !(cx
        < widget.sobel_image->0.width && 2 * cy < widget.sobel_image->0.height) {
        old_cell
    } else {
        let edge = if widget.sobel_image is Some && widget.edge_detection is Some {
            spec_replace_detected_edges(
                character,
                fg,
                widget.sobel_image->0.gradient_at(cx, 2 * cy),
                widget.edge_detection->0,
            )
        } else {
            (character, fg)
        };
        let chosen = spec_colors_for_color_choices(
            edge.1,
            None,
            config.colors.foreground,
            config.colors.background,
        );
        if config.common.transparent && chosen.0 is None {
            old_cell
        } else {
            spec_write_fg_bg_cell(
                old_cell,
                edge.0,
                spec_support_opt(chosen.0, config.colors.support),
                spec_support_opt(chosen.1, config.colors.support),
            )
        }
    }
}

/// Everything one depth-strategy render promises of the destination grid and the
/// depth buffer: untouched cells outside the drawn region, the per-cell
/// outcome inside it, and the pointwise depth record afterward.
pub open spec fn spec_depth_render_effect(
    widget: RatatuiCameraWidgetDepth,
    area: Rect,
    old_buf: CellBuffer,
    new_buf: CellBuffer,
    old_db: Option<RatatuiCameraDepthBuffer>,
    new_db: Option<RatatuiCameraDepthBuffer>,
) -> bool {
    &&& new_buf.wf()
    &&& new_buf.area == old_buf.area
    &&& forall|px: int, py: int|
        old_buf.area.contains(px, py) && !spec_in_render_region(
            widget.camera_image,
            area,
            px,
            py,
        ) ==> new_buf.cell_at(px, py) == old_buf.cell_at(px, py)
    &&& widget.depth_image is None ==> new_buf == old_buf && new_db == old_db
    &&& widget.depth_image is Some ==> forall|cx: int, cy: int|
        spec_cell_rendered(widget.camera_image, area, old_buf.area, cx, cy) ==> new_buf.cell_at(
            area.x + cx,
            area.y + cy,
        ) == spec_depth_cell(widget, old_db, cx, cy, old_buf.cell_at(area.x + cx, area.y + cy))
    &&& old_db is None || widget.depth_image is None ==> new_db == old_db
    &&& old_db is Some && widget.depth_image is Some ==> {
        &&& new_db is Some
        &&& new_db->0.wf()
        &&& new_db->0.spec_width() == old_db->0.spec_width()
        &&& new_db->0.spec_height() == old_db->0.spec_height()
        &&& forall|x: int, y: int|
            old_db->0.contains(x, y) ==> new_db->0.depth_at(x, y) == spec_two_pass_depth_after(
                widget.camera_image,
                widget.depth_image,
                area,
                old_buf.area,
                old_db->0,
                x,
                y,
            )
    }
}

/// The depth rendering strategy: each cell's glyph is selected from an
/// ordered character list by the cell's sampled depth, so closer surfaces use
/// more opaque characters. Relies on a depth image sampled alongside the
/// color image; without one the render draws nothing.
#[derive(Debug)]
pub struct RatatuiCameraWidgetDepth {
    /// The camera's rendered color image.
    pub camera_image: ColorImage,
    /// The camera's rendered depth values; the strategy draws nothing
    /// without them.
    pub depth_image: Option<DepthImage>,
    /// The camera's edge-detection raster, if edge detection is in use.
    pub sobel_image: Option<EdgeImage>,
    /// Configuration of the depth strategy.
    pub strategy_config: DepthConfig,
    /// Edge-detection settings, if edge detection is in use.
    pub edge_detection: Option<RatatuiCameraEdgeDetection>,
}

impl RatatuiCameraWidgetDepth {
    /// Every raster the widget holds is well-formed, a present depth image
    /// covers the color image exactly, and the configured character list is
    /// usable: not empty, as character selection requires.
    pub open spec fn wf(self) -> bool {
        &&& self.camera_image.wf()
        &&& self.depth_image is Some ==> {
            &&& self.depth_image->0.wf()
            &&& self.depth_image->0.width == self.camera_image.width
            &&& self.depth_image->0.height == self.camera_image.height
        }
        &&& self.sobel_image is Some ==> self.sobel_image->0.wf()
        &&& 1 <= self.strategy_config.characters.list@.len() <= 0xFFFF_FFFF
    }

    /// Bundle the images and configuration for one depth render.
    pub fn new(
        camera_image: ColorImage,
        depth_image: Option<DepthImage>,
        sobel_image: Option<EdgeImage>,
        strategy_config: DepthConfig,
        edge_detection: Option<RatatuiCameraEdgeDetection>,
    ) -> (widget: RatatuiCameraWidgetDepth)
        ensures
            widget == (RatatuiCameraWidgetDepth {
                camera_image,
                depth_image,
                sobel_image,
                strategy_config,
                edge_detection,
            }),
    {
        RatatuiCameraWidgetDepth {
            camera_image,
            depth_image,
            sobel_image,
            strategy_config,
            edge_detection,
        }
    }

    /// Convert the color and depth images into one cell per pair of
    /// scanlines: the sampled depth selects the glyph, the averaged color
    /// gives the foreground, depth occlusion and the edge overlay apply, the
    /// configured color choices run, and the surviving cells land in the
    /// buffer. Without a depth image nothing at all is drawn; cells outside
    /// the given area, outside the buffer or beyond the image are left
    /// untouched.
    pub fn render(
        &self,
        area: Rect,
        buf: &mut CellBuffer,
        depth_buffer: &mut Option<RatatuiCameraDepthBuffer>,
    )
        requires
            self.wf(),
            old(buf).wf(),
            *old(depth_buffer) is Some ==> old(depth_buffer)->0.wf(),
        ensures
            spec_depth_render_effect(
                *self,
                area,
                *old(buf),
                *final(buf),
                *old(depth_buffer),
                *final(depth_buffer),
            ),
    {
        if self.depth_image.is_none() {
            return ;
        }
        let width = self.camera_image.width;
        let rows = (self.camera_image.height + 1) / 2;
        let mut cy: u32 = 0;
        while cy < rows
            invariant
                self.wf(),
                self.depth_image is Some,
                *old(depth_buffer) is Some ==> old(depth_buffer)->0.wf(),
                rows == spec_cell_rows(self.camera_image),
                width == self.camera_image.width,
                cy <= rows,
                buf.wf(),
                buf.area == old(buf).area,
                forall|px: int, py: int|
                    old(buf).area.contains(px, py) && !spec_in_render_region(
                        self.camera_image,
                        area,
                        px,
                        py,
                    ) ==> buf.cell_at(px, py) == old(buf).cell_at(px, py),
                forall|icx: int, icy: int|
                    spec_cell_rendered(self.camera_image, area, old(buf).area, icx, icy) ==> if icy
                        < cy {
                        buf.cell_at(area.x + icx, area.y + icy) == spec_depth_cell(
                            *self,
                            *old(depth_buffer),
                            icx,
                            icy,
                            old(buf).cell_at(area.x + icx, area.y + icy),
                        )
                    } else {
                        buf.cell_at(area.x + icx, area.y + icy) == old(buf).cell_at(
                            area.x + icx,
                            area.y + icy,
                        )
                    },
                *old(depth_buffer) is None ==> *depth_buffer == *old(depth_buffer),
                *old(depth_buffer) is Some ==> {
                    &&& *depth_buffer is Some
                    &&& depth_buffer->0.wf()
                    &&& depth_buffer->0.spec_width() == old(depth_buffer)->0.spec_width()
                    &&& depth_buffer->0.spec_height() == old(depth_buffer)->0.spec_height()
                    &&& forall|x: int, y: int|
                        old(depth_buffer)->0.contains(x, y) ==> depth_buffer->0.depth_at(x, y)
                            == if y / 2 < cy {
                            spec_two_pass_depth_after(
                                self.camera_image,
                                self.depth_image,
                                area,
                                old(buf).area,
                                old(depth_buffer)->0,
                                x,
                                y,
                            )
                        } else {
                            old(depth_buffer)->0.depth_at(x, y)
                        }
                },
            decreases rows - cy,
        {
            let mut cx: u32 = 0;
            while cx < width
                invariant
                    self.wf(),
                    self.depth_image is Some,
                    *old(depth_buffer) is Some ==> old(depth_buffer)->0.wf(),
                    rows == spec_cell_rows(self.camera_image),
                    width == self.camera_image.width,
                    cy < rows,
                    cx <= width,
                    buf.wf(),
                    buf.area == old(buf).area,
                    forall|px: int, py: int|
                        old(buf).area.contains(px, py) && !spec_in_render_region(
                            self.camera_image,
                            area,
                            px,
                            py,
                        ) ==> buf.cell_at(px, py) == old(buf).cell_at(px, py),
                    forall|icx: int, icy: int|
                        spec_cell_rendered(self.camera_image, area, old(buf).area, icx, icy)
                            ==> if icy < cy || (icy == cy && icx < cx) {
                            buf.cell_at(area.x + icx, area.y + icy) == spec_depth_cell(
                                *self,
                                *old(depth_buffer),
                                icx,
                                icy,
                                old(buf).cell_at(area.x + icx, area.y + icy),
                            )
                        } else {
                            buf.cell_at(area.x + icx, area.y + icy) == old(buf).cell_at(
                                area.x + icx,
                                area.y + icy,
                            )
                        },
                    *old(depth_buffer) is None ==> *depth_buffer == *old(depth_buffer),
                    *old(depth_buffer) is Some ==> {
                        &&& *depth_buffer is Some
                        &&& depth_buffer->0.wf()
                        &&& depth_buffer->0.spec_width() == old(depth_buffer)->0.spec_width()
                        &&& depth_buffer->0.spec_height() == old(depth_buffer)->0.spec_height()
                        &&& forall|x: int, y: int|
                            old(depth_buffer)->0.contains(x, y) ==> depth_buffer->0.depth_at(x, y)
                                == if y / 2 < cy || (y / 2 == cy && x < cx) {
                                spec_two_pass_depth_after(
                                    self.camera_image,
                                    self.depth_image,
                                    area,
                                    old(buf).area,
                                    old(depth_buffer)->0,
                                    x,
                                    y,
                                )
                            } else {
                                old(depth_buffer)->0.depth_at(x, y)
                            }
                    },
                decreases width - cx,
            {
                self.render_cell(area, buf, depth_buffer, cx, cy);
                cx = cx + 1;
            }
            cy = cy + 1;
        }
    }

    /// Render one cell of the grid: sample the depth metric and the averaged
    /// color, select the glyph, run the depth tests, apply the edge overlay
    /// and the color choices, and write the outcome.
    fn render_cell(
        &self,
        area: Rect,
        buf: &mut CellBuffer,
        depth_buffer: &mut Option<RatatuiCameraDepthBuffer>,
        cx: u32,
        cy: u32,
    )
        requires
            self.wf(),
            self.depth_image is Some,
            old(buf).wf(),
            *old(depth_buffer) is Some ==> old(depth_buffer)->0.wf(),
            cx < self.camera_image.width,
            cy < spec_cell_rows(self.camera_image),
        ensures
            final(buf).wf(),
            final(buf).area == old(buf).area,
            spec_cell_rendered(self.camera_image, area, old(buf).area, cx as int, cy as int)
                ==> final(buf).cell_at(area.x + cx, area.y + cy) == spec_depth_cell(
                *self,
                *old(depth_buffer),
                cx as int,
                cy as int,
                old(buf).cell_at(area.x + cx, area.y + cy),
            ),
            forall|px: int, py: int|
                old(buf).area.contains(px, py) && !(px == area.x + cx && py == area.y + cy)
                    ==> final(buf).cell_at(px, py) == old(buf).cell_at(px, py),
            !spec_cell_rendered(self.camera_image, area, old(buf).area, cx as int, cy as int)
                ==> *final(buf) == *old(buf),
            *old(depth_buffer) is None ==> *final(depth_buffer) == *old(depth_buffer),
            *old(depth_buffer) is Some ==> {
                &&& *final(depth_buffer) is Some
                &&& final(depth_buffer)->0.wf()
                &&& final(depth_buffer)->0.spec_width() == old(depth_buffer)->0.spec_width()
                &&& final(depth_buffer)->0.spec_height() == old(depth_buffer)->0.spec_height()
                &&& forall|x: int, y: int|
                    old(depth_buffer)->0.contains(x, y) ==> final(depth_buffer)->0.depth_at(x, y)
                        == if x == cx && (y == 2 * cy || y == 2 * cy + 1) && spec_cell_rendered(
                        self.camera_image,
                        area,
                        old(buf).area,
                        cx as int,
                        cy as int,
                    ) {
                        spec_two_pass_depth_after(
                            self.camera_image,
                            self.depth_image,
                            area,
                            old(buf).area,
                            old(depth_buffer)->0,
                            x,
                            y,
                        )
                    } else {
                        old(depth_buffer)->0.depth_at(x, y)
                    }
            },
    {
        if cx >= area.width as u32 || cy >= area.height as u32 {
            return ;
        }
        let px = area.x as u32 + cx;
        let py = area.y as u32 + cy;
        if px > 0xFFFF || py > 0xFFFF {
            return ;
        }
        let Some(old_cell) = buf.cell(px as u16, py as u16) else {
            return ;
        };

        let even_pixel = self.camera_image.pixel(cx, 2 * cy);
        let quad = if 2 * cy + 1 < self.camera_image.height {
            average_in_rgba(even_pixel, self.camera_image.pixel(cx, 2 * cy + 1))
        } else {
            even_pixel
        };

        let Some(depth_image) = &self.depth_image else {
            return ;
        };
        let depth = if 2 * cy + 1 < depth_image.height {
            depth_image.depth(cx, 2 * cy + 1)
        } else {
            depth_image.depth(cx, 2 * cy)
        };

        let index = character_index(
            depth,
            self.strategy_config.characters.scale,
            self.strategy_config.characters.list.len(),
        );
        let mut character = self.strategy_config.characters.list[index];
        let mut fg = if quad.a == 0 || depth == 0 {
            None
        } else {
            Some(Color::Rgb(quad.r, quad.g, quad.b))
        };
        let mut bg: Option<Color> = None;

        if let Some(db) = depth_buffer {
            let draw_even = match db.compare_and_update_from_image(cx, 2 * cy, depth_image) {
                Some(draw) => draw,
                None => false,
            };
            if !draw_even {
                return ;
            }
            let draw_odd = match db.compare_and_update_from_image(cx, 2 * cy + 1, depth_image) {
                Some(draw) => draw,
                None => false,
            };
            if !draw_odd {
                return ;
            }
        }

        if let (Some(sobel_image), Some(edge_detection)) = (&self.sobel_image, &self.edge_detection) {
            if !(cx < sobel_image.width && 2 * cy < sobel_image.height) {
                return ;
            }
            let gradient = sobel_image.gradient(cx, 2 * cy);
            let (edge_character, edge_fg) = replace_detected_edges(
                character,
                fg,
                gradient,
                edge_detection,
            );
            character = edge_character;
            fg = edge_fg;
        }

        let chosen = colors_for_color_choices(
            fg,
            bg,
            &self.strategy_config.colors.foreground,
            &self.strategy_config.colors.background,
        );
        fg = chosen.0;
        bg = chosen.1;

        if self.strategy_config.common.transparent && fg.is_none() {
            return ;
        }

        let fg = color_opt_for_color_support(fg, self.strategy_config.colors.support);
        let bg = color_opt_for_color_support(bg, self.strategy_config.colors.support);

        let mut cell = old_cell;
        if let Some(color) = fg {
            cell.fg = color;
            cell.symbol = character;
        }
        if let Some(color) = bg {
            cell.bg = color;
        }
        buf.put_cell(px as u16, py as u16, cell);
    }
}

} // verus!

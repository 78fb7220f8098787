use vstd::prelude::*;

use crate::camera_edge_detection::RatatuiCameraEdgeDetection;
use crate::cell_buffer::{Cell, CellBuffer, Rect};
use crate::color::Color;
use crate::raster::{ColorImage, EdgeImage};
use crate::widget_strategy_luminance::spec_write_fg_bg_cell;
use crate::widget_utilities::{
    average_in_rgba, gradient_is_zero, replace_detected_edges, spec_avg_pixel, spec_cell_rendered,
    spec_cell_rows, spec_in_render_region, spec_replace_detected_edges,
};

verus! {

/// What the edges-only strategy leaves in one destination cell: the base
/// image contributes nothing of its own, so a cell whose sampled gradient
/// holds no edge stays untouched; where an edge was detected, the overlay's
/// glyph is written with the configured edge color, falling back to the
/// averaged sample's color. A cell whose edge sample would lie outside the
/// edge raster is also left untouched.
pub open spec fn spec_edges_only_cell(
    widget: RatatuiCameraWidgetNone,
    cx: int,
    cy: int,
    old_cell: Cell,
) -> Cell {
    let quad = spec_avg_pixel(widget.camera_image, cx, cy);
    let fg = Some(Color::Rgb(quad.r, quad.g, quad.b));
    let sobel = widget.sobel_image->0;
    if !(cx < sobel.width && 2 * cy < sobel.height) {
        old_cell
    } else if gradient_is_zero(sobel.gradient_at(cx, 2 * cy)) {
        old_cell
    } else {
        let edge = spec_replace_detected_edges(
            ' ',
            fg,
            sobel.gradient_at(cx, 2 * cy),
            widget.edge_detection->0,
        );
        spec_write_fg_bg_cell(old_cell, edge.0, edge.1, None)
    }
}

/// Everything one edges-only render promises of the destination grid:
/// untouched cells outside the drawn region and the per-cell outcome inside
/// it (only cells on a detected edge change); without an edge raster or
/// settings, an untouched grid.
pub open spec fn spec_edges_only_render_effect(
    widget: RatatuiCameraWidgetNone,
    area: Rect,
    old_buf: CellBuffer,
    new_buf: CellBuffer,
) -> bool {
    &&& new_buf.wf()
    &&& new_buf.area == old_buf.area
    &&& widget.sobel_image is None || widget.edge_detection is None ==> new_buf == old_buf
    &&& forall|px: int, py: int|
        old_buf.area.contains(px, py) && !spec_in_render_region(
            widget.camera_image,
            area,
            px,
            py,
        ) ==> new_buf.cell_at(px, py) == old_buf.cell_at(px, py)
    &&& widget.sobel_image is Some && widget.edge_detection is Some ==> forall|cx: int, cy: int|
        spec_cell_rendered(widget.camera_image, area, old_buf.area, cx, cy) ==> new_buf.cell_at(
            area.x + cx,
            area.y + cy,
        ) == spec_edges_only_cell(widget, cx, cy, old_buf.cell_at(area.x + cx, area.y + cy))
}

/// The edges-only rendering strategy: the base image contributes no glyphs
/// or colors of its own; only the edge overlay draws, so a scene appears as a
/// wireframe and every cell off an edge stays untouched. Without an edge
/// raster and edge-detection settings the render draws nothing.
#[derive(Debug)]
pub struct RatatuiCameraWidgetNone {
    /// The camera's rendered color image.
    pub camera_image: ColorImage,
    /// The camera's edge-detection raster; the strategy draws nothing
    /// without it.
    pub sobel_image: Option<EdgeImage>,
    /// Edge-detection settings; the strategy draws nothing without them.
    pub edge_detection: Option<RatatuiCameraEdgeDetection>,
}

impl RatatuiCameraWidgetNone {
    /// Every raster the widget holds is well-formed.
    pub open spec fn wf(self) -> bool {
        &&& self.camera_image.wf()
        &&& self.sobel_image is Some ==> self.sobel_image->0.wf()
    }

    /// Bundle the images and settings for one edges-only render.
    pub fn new(
        camera_image: ColorImage,
        sobel_image: Option<EdgeImage>,
        edge_detection: Option<RatatuiCameraEdgeDetection>,
    ) -> (widget: RatatuiCameraWidgetNone)
        ensures
            widget == (RatatuiCameraWidgetNone { camera_image, sobel_image, edge_detection }),
    {
        RatatuiCameraWidgetNone { camera_image, sobel_image, edge_detection }
    }

    /// Draw the detected edges of the image into the buffer: each cell whose
    /// edge sample holds an edge gets the overlay's glyph and color, every
    /// other cell stays untouched. Without an edge raster or edge-detection
    /// settings nothing at all is drawn; cells outside the given area,
    /// outside the buffer or beyond the image are left untouched.
    pub fn render(&self, area: Rect, buf: &mut CellBuffer)
        requires
            self.wf(),
            old(buf).wf(),
        ensures
            spec_edges_only_render_effect(*self, area, *old(buf), *final(buf)),
    {
        if self.sobel_image.is_none() || self.edge_detection.is_none() {
            return ;
        }
        let width = self.camera_image.width;
        let rows = (self.camera_image.height + 1) / 2;
        let mut cy: u32 = 0;
        while cy < rows
            invariant
                self.wf(),
                self.sobel_image is Some,
                self.edge_detection is Some,
                rows == spec_cell_rows(self.camera_image),
                width == self.camera_image.width,
                cy <= rows,
                buf.wf(),
                buf.area == old(buf).area,
                forall|px: int, py: int|
                    old(buf).area.contains(px, py) && !spec_in_render_region(
                        self.camera_image,
                        area,
                        px,
                        py,
                    ) ==> buf.cell_at(px, py) == old(buf).cell_at(px, py),
                forall|icx: int, icy: int|
                    spec_cell_rendered(self.camera_image, area, old(buf).area, icx, icy) ==> if icy
                        < cy {
                        buf.cell_at(area.x + icx, area.y + icy) == spec_edges_only_cell(
                            *self,
                            icx,
                            icy,
                            old(buf).cell_at(area.x + icx, area.y + icy),
                        )
                    } else {
                        buf.cell_at(area.x + icx, area.y + icy) == old(buf).cell_at(
                            area.x + icx,
                            area.y + icy,
                        )
                    },
            decreases rows - cy,
        {
            let mut cx: u32 = 0;
            while cx < width
                invariant
                    self.wf(),
                    self.sobel_image is Some,
                    self.edge_detection is Some,
                    rows == spec_cell_rows(self.camera_image),
                    width == self.camera_image.width,
                    cy < rows,
                    cx <= width,
                    buf.wf(),
                    buf.area == old(buf).area,
                    forall|px: int, py: int|
                        old(buf).area.contains(px, py) && !spec_in_render_region(
                            self.camera_image,
                            area,
                            px,
                            py,
                        ) ==> buf.cell_at(px, py) == old(buf).cell_at(px, py),
                    forall|icx: int, icy: int|
                        spec_cell_rendered(self.camera_image, area, old(buf).area, icx, icy)
                            ==> if icy < cy || (icy == cy && icx < cx) {
                            buf.cell_at(area.x + icx, area.y + icy) == spec_edges_only_cell(
                                *self,
                                icx,
                                icy,
                                old(buf).cell_at(area.x + icx, area.y + icy),
                            )
                        } else {
                            buf.cell_at(area.x + icx, area.y + icy) == old(buf).cell_at(
                                area.x + icx,
                                area.y + icy,
                            )
                        },
                decreases width - cx,
            {
                self.render_cell(area, buf, cx, cy);
                cx = cx + 1;
            }
            cy = cy + 1;
        }
    }

    /// Render one cell of the grid: average the scanlines for the fallback
    /// color, and write the edge overlay's outcome when the sampled gradient
    /// holds an edge; a cell off an edge stays untouched.
    fn render_cell(&self, area: Rect, buf: &mut CellBuffer, cx: u32, cy: u32)
        requires
            self.wf(),
            self.sobel_image is Some,
            self.edge_detection is Some,
            old(buf).wf(),
            cx < self.camera_image.width,
            cy < spec_cell_rows(self.camera_image),
        ensures
            final(buf).wf(),
            final(buf).area == old(buf).area,
            spec_cell_rendered(self.camera_image, area, old(buf).area, cx as int, cy as int)
                ==> final(buf).cell_at(area.x + cx, area.y + cy) == spec_edges_only_cell(
                *self,
                cx as int,
                cy as int,
                old(buf).cell_at(area.x + cx, area.y + cy),
            ),
            forall|px: int, py: int|
                old(buf).area.contains(px, py) && !(px == area.x + cx && py == area.y + cy)
                    ==> final(buf).cell_at(px, py) == old(buf).cell_at(px, py),
            !spec_cell_rendered(self.camera_image, area, old(buf).area, cx as int, cy as int)
                ==> *final(buf) == *old(buf),
    {
        if cx >= area.width as u32 || cy >= area.height as u32 {
            return ;
        }
        let px = area.x as u32 + cx;
        let py = area.y as u32 + cy;
        if px > 0xFFFF || py > 0xFFFF {
            return ;
        }
        let Some(old_cell) = buf.cell(px as u16, py as u16) else {
            return ;
        };

        let even_pixel = self.camera_image.pixel(cx, 2 * cy);
        let quad = if 2 * cy + 1 < self.camera_image.height {
            average_in_rgba(even_pixel, self.camera_image.pixel(cx, 2 * cy + 1))
        } else {
            even_pixel
        };
        let fg = Some(Color::Rgb(quad.r, quad.g, quad.b));

        let (Some(sobel_image), Some(edge_detection)) = (&self.sobel_image, &self.edge_detection)
        else {
            return ;
        };
        if !(cx < sobel_image.width && 2 * cy < sobel_image.height) {
            return ;
        }
        let gradient = sobel_image.gradient(cx, 2 * cy);
        if gradient.vertical == 0 && gradient.horizontal == 0 && gradient.forward_diagonal == 0
            && gradient.backward_diagonal == 0 {
            return ;
        }
        let (character, fg) = replace_detected_edges(' ', fg, gradient, edge_detection);

        let mut cell = old_cell;
        if let Some(color) = fg {
            cell.fg = color;
            cell.symbol = character;
        }
        buf.put_cell(px as u16, py as u16, cell);
    }
}

} // verus!

use vstd::prelude::*;

use vstd::arithmetic::div_mod::{
    lemma_fundamental_div_mod, lemma_fundamental_div_mod_converse, lemma_mod_bound,
};

use crate::cell_buffer::Rect;
use crate::raster::{nearest_resize, ColorImage, DepthImage, EdgeImage, MAX_RASTER_DIM};
use crate::widget::RatatuiCameraWidget;
use crate::widget_utilities::spec_min;

verus! {

/// A position in the terminal grid measured in whole cells, signed so that
/// positions left of or above an area can be expressed.
#[derive(Clone, Copy, Debug, PartialEq, Eq, Structural)]
pub struct CellCoords {
    /// Cell column, growing rightward.
    pub x: i32,
    /// Cell row, growing downward.
    pub y: i32,
}

/// A position in normalized device coordinates, in fixed point with 65536
/// standing for 1.0: visible content spans -1.0 to 1.0 in x and y, with x
/// growing rightward and y growing upward (inverted from the screen-down
/// convention).
#[derive(Clone, Copy, Debug, PartialEq, Eq, Structural)]
pub struct Ndc {
    /// Horizontal position, -65536 at the left edge, 65536 at the right.
    pub x: i64,
    /// Vertical position, -65536 at the bottom edge, 65536 at the top.
    pub y: i64,
    /// Depth, fixed at the mid-depth placeholder 32768 (0.5), since cell
    /// coordinates alone cannot determine it.
    pub z: i64,
}

/// Division rounded to the nearest integer, halves rounding up.
pub open spec fn spec_round_div(n: int, d: int) -> int {
    (2 * n + d) / (2 * d)
}

/// The width of the aspect-ratio-correct render sub-area within `area`: the
/// area's height times the image's cell aspect ratio (width doubled against
/// height, as cells are twice as tall as wide), rounded to the nearest cell
/// and capped by the area's width.
pub open spec fn spec_render_width(image: ColorImage, area: Rect) -> int {
    spec_min(
        area.width as int,
        spec_round_div(2 * (area.height as int) * (image.width as int), image.height as int),
    )
}

/// The height of the aspect-ratio-correct render sub-area within `area`: the
/// area's width divided by the image's cell aspect ratio, rounded to the
/// nearest cell and capped by the area's height.
pub open spec fn spec_render_height(image: ColorImage, area: Rect) -> int {
    spec_min(
        area.height as int,
        spec_round_div((area.width as int) * (image.height as int), 2 * (image.width as int)),
    )
}

/// The largest rectangle with the image's cell aspect ratio that fits within
/// `area`, centered, with leftover space split evenly and odd remainders
/// favoring the top left.
pub open spec fn spec_render_area(image: ColorImage, area: Rect) -> Rect {
    let width = spec_render_width(image, area);
    let height = spec_render_height(image, area);
    Rect {
        x: (area.x + (area.width - width) / 2) as u16,
        y: (area.y + (area.height - height) / 2) as u16,
        width: width as u16,
        height: height as u16,
    }
}

/// Division rounded to the nearest integer, halves rounding up.
fn round_div(n: u64, d: u64) -> (q: u64)
    requires
        1 <= d <= 0x1_0000_0000,
        n <= 0x1_0000_0000_0000,
    ensures
        q == spec_round_div(n as int, d as int),
{
    (2 * n + d) / (2 * d)
}

/// Division that rounds toward negative infinity, matching mathematical
/// integer division also for negative numerators.
fn floor_div(n: i64, d: i64) -> (q: i64)
    requires
        1 <= d <= 0x1_0000_0000,
        -0x100_0000_0000_0000 <= n <= 0x100_0000_0000_0000,
    ensures
        q == n as int / d as int,
        n >= 0 ==> 0 <= q <= n,
        n < 0 ==> n <= q <= 0,
{
    if n >= 0 {
        proof {
            vstd::arithmetic::div_mod::lemma_div_is_ordered(0, n as int, d as int);
            vstd::arithmetic::div_mod::lemma_div_is_ordered_by_denominator(n as int, 1, d as int);
        }
        let quotient = (n as u64) / (d as u64);
        quotient as i64
    } else {
        let magnitude = (-n) as u64;
        let quotient = (magnitude + (d as u64) - 1) / (d as u64);
        proof {
            lemma_floor_div_negative(n as int, d as int);
            let m = -(n as int);
            let di = d as int;
            assert(m + di - 1 <= m * di) by (nonlinear_arith)
                requires
                    1 <= m,
                    1 <= di,
            ;
            vstd::arithmetic::div_mod::lemma_div_is_ordered(m + di - 1, m * di, di);
            vstd::arithmetic::div_mod::lemma_div_by_multiple(m, di);
            vstd::arithmetic::div_mod::lemma_div_is_ordered(0, m + di - 1, di);
        }
        -(quotient as i64)
    }
}

/// Dividing a negative numerator rounds away from zero: the quotient is the
/// negated ceiling of the magnitude's quotient.
proof fn lemma_floor_div_negative(n: int, d: int)
    requires
        n < 0,
        1 <= d,
    ensures
        n / d == -(((-n) + d - 1) / d),
{
    let m = -n;
    lemma_fundamental_div_mod(n, d);
    lemma_mod_bound(n, d);
    let q1 = n / d;
    let r1 = n % d;
    assert(m + d - 1 == d * (-q1) + (d - 1 - r1)) by (nonlinear_arith)
        requires
            n == d * q1 + r1,
            m == -n,
    ;
    assert(0 <= d - 1 - r1 < d);
    lemma_fundamental_div_mod_converse(m + d - 1, d, -q1, d - 1 - r1);
}

/// Division truncating toward zero (for a positive divisor): the host
/// convention of casting a fractional value to an integer.
pub open spec fn spec_trunc_div(n: int, d: int) -> int {
    if n >= 0 {
        n / d
    } else {
        -((-n) / d)
    }
}

/// Division that truncates toward zero, matching a cast from a fractional
/// value to an integer also for negative numerators.
fn trunc_div(n: i64, d: i64) -> (q: i64)
    requires
        1 <= d <= 0x1_0000_0000,
        -0x100_0000_0000_0000 <= n <= 0x100_0000_0000_0000,
    ensures
        q == spec_trunc_div(n as int, d as int),
        n >= 0 ==> 0 <= q <= n,
        n < 0 ==> n <= q <= 0,
{
    if n >= 0 {
        proof {
            vstd::arithmetic::div_mod::lemma_div_is_ordered(0, n as int, d as int);
            vstd::arithmetic::div_mod::lemma_div_is_ordered_by_denominator(n as int, 1, d as int);
        }
        let quotient = (n as u64) / (d as u64);
        quotient as i64
    } else {
        let magnitude = (-n) as u64;
        proof {
            vstd::arithmetic::div_mod::lemma_div_is_ordered(0, -(n as int), d as int);
            vstd::arithmetic::div_mod::lemma_div_is_ordered_by_denominator(
                -(n as int),
                1,
                d as int,
            );
        }
        let quotient = magnitude / (d as u64);
        -(quotient as i64)
    }
}

/// What converting a cell position, relative to the render sub-area computed
/// for `area`, into normalized device coordinates returns: the position is
/// scaled linearly so that the sub-area spans -1.0 to 1.0 in each direction,
/// with y inverted and depth fixed at the mid-depth placeholder.
pub open spec fn spec_relative_cell_to_ndc(image: ColorImage, area: Rect, cell: CellCoords) -> Ndc {
    let render_area = spec_render_area(image, area);
    Ndc {
        x: ((cell.x * 131072) / (render_area.width as int) - 65536) as i64,
        y: (65536 - (cell.y * 131072) / (render_area.height as int)) as i64,
        z: 32768,
    }
}

/// What converting normalized device coordinates back into a cell position
/// relative to the render sub-area computed for `area` returns, truncating
/// toward zero as a cast to an integer cell count does.
pub open spec fn spec_ndc_to_relative_cell(image: ColorImage, area: Rect, ndc: Ndc) -> CellCoords {
    let render_area = spec_render_area(image, area);
    CellCoords {
        x: spec_trunc_div((ndc.x + 65536) * (render_area.width as int), 131072) as i32,
        y: spec_trunc_div((65536 - ndc.y) * (render_area.height as int), 131072) as i32,
    }
}

impl RatatuiCameraWidget {
    /// The aspect ratio of the widget's render image in terminal cells, as a
    /// fraction: the image width doubled (cells are about twice as tall as
    /// they are wide) over the image height.
    pub fn aspect_ratio(&self) -> (ratio: (u32, u32))
        requires
            self.camera_image.width <= MAX_RASTER_DIM,
        ensures
            ratio == ((2 * self.camera_image.width) as u32, self.camera_image.height),
    {
        (self.camera_image.width * 2, self.camera_image.height)
    }

    /// Calculate the area that the image will actually be drawn to (excluding
    /// the vertical or horizontal gutters needed to preserve the image's
    /// aspect ratio): the largest rectangle with the image's aspect ratio
    /// that fits within `area`, centered within it.
    pub fn calculate_render_area(&self, area: Rect) -> (render_area: Rect)
        requires
            self.wf(),
            area.x + area.width <= 0x1_0000,
            area.y + area.height <= 0x1_0000,
        ensures
            render_area == spec_render_area(self.camera_image, area),
            render_area.width <= area.width,
            render_area.height <= area.height,
            area.x <= render_area.x,
            area.y <= render_area.y,
            render_area.x + render_area.width <= area.x + area.width,
            render_area.y + render_area.height <= area.y + area.height,
    {
        let image_width = self.camera_image.width as u64;
        let image_height = self.camera_image.height as u64;

        proof {
            crate::raster::lemma_mul_le(
                2 * (area.height as int),
                image_width as int,
                0x1_FFFE,
                0x4000,
            );
            crate::raster::lemma_mul_le(area.width as int, image_height as int, 0xFFFF, 0x4000);
        }
        let width_candidate = round_div(2 * (area.height as u64) * image_width, image_height);
        let width: u16 = if (area.width as u64) <= width_candidate {
            area.width
        } else {
            width_candidate as u16
        };

        let height_candidate = round_div((area.width as u64) * image_height, 2 * image_width);
        let height: u16 = if (area.height as u64) <= height_candidate {
            area.height
        } else {
            height_candidate as u16
        };

        let x = area.x + (area.width - width) / 2;
        let y = area.y + (area.height - height) / 2;

        Rect { x, y, width, height }
    }

    /// Return the camera image and (if present) the depth and edge rasters,
    /// each scaled with nearest-neighbor sampling to the largest size that
    /// fits the given cell area: one pixel column per cell column and two
    /// pixel rows per cell row.
    pub fn resize_images_to_area(&self, area: Rect) -> (images: (
        ColorImage,
        Option<DepthImage>,
        Option<EdgeImage>,
    ))
        requires
            self.wf(),
            1 <= area.width,
            1 <= area.height,
            area.width <= MAX_RASTER_DIM,
            2 * area.height <= MAX_RASTER_DIM,
        ensures
            images.0.wf(),
            1 <= images.0.width <= area.width,
            1 <= images.0.height <= 2 * area.height,
            (images.0.data@, images.0.width, images.0.height) == nearest_resize(
                self.camera_image.data@,
                self.camera_image.width,
                self.camera_image.height,
                area.width as u32,
                (2 * area.height as u32) as u32,
            ),
            images.1 is Some <==> self.depth_image is Some,
            self.depth_image is Some ==> {
                &&& images.1->0.wf()
                &&& 1 <= images.1->0.width <= area.width
                &&& 1 <= images.1->0.height <= 2 * area.height
                &&& (images.1->0.data@, images.1->0.width, images.1->0.height) == nearest_resize(
                    self.depth_image->0.data@,
                    self.depth_image->0.width,
                    self.depth_image->0.height,
                    area.width as u32,
                    (2 * area.height as u32) as u32,
                )
            },
            images.2 is Some <==> self.sobel_image is Some,
            self.sobel_image is Some ==> {
                &&& images.2->0.wf()
                &&& 1 <= images.2->0.width <= area.width
                &&& 1 <= images.2->0.height <= 2 * area.height
                &&& (images.2->0.data@, images.2->0.width, images.2->0.height) == nearest_resize(
                    self.sobel_image->0.data@,
                    self.sobel_image->0.width,
                    self.sobel_image->0.height,
                    area.width as u32,
                    (2 * area.height as u32) as u32,
                )
            },
    {
        let width = area.width as u32;
        let height = area.height as u32 * 2;

        let camera_image = self.camera_image.resize_to_fit(width, height);

        let depth_image = match &self.depth_image {
            Some(image) => Some(image.resize_to_fit(width, height)),
            None => None,
        };

        let sobel_image = match &self.sobel_image {
            Some(image) => Some(image.resize_to_fit(width, height)),
            None => None,
        };

        (camera_image, depth_image, sobel_image)
    }

    /// Convert a pair of terminal buffer cell coordinates (characters from
    /// the left and top edges of the buffer) into normalized device
    /// coordinates representing a position in the camera viewport.
    pub fn cell_to_ndc(&self, area: Rect, cell_coords: CellCoords) -> (ndc: Ndc)
        requires
            self.wf(),
            area.x + area.width <= 0x1_0000,
            area.y + area.height <= 0x1_0000,
            1 <= spec_render_width(
                self.camera_image,
                spec_render_area(self.camera_image, area),
            ),
            1 <= spec_render_height(
                self.camera_image,
                spec_render_area(self.camera_image, area),
            ),
            -0x4000_0000 <= cell_coords.x <= 0x4000_0000,
            -0x4000_0000 <= cell_coords.y <= 0x4000_0000,
        ensures
            ({
                let render_area = spec_render_area(self.camera_image, area);
                ndc == spec_relative_cell_to_ndc(
                    self.camera_image,
                    render_area,
                    CellCoords {
                        x: (cell_coords.x - render_area.x) as i32,
                        y: (cell_coords.y - render_area.y) as i32,
                    },
                )
            }),
    {
        let render_area = self.calculate_render_area(area);
        let cell_coords = CellCoords {
            x: cell_coords.x - render_area.x as i32,
            y: cell_coords.y - render_area.y as i32,
        };

        self.relative_cell_to_ndc(render_area, cell_coords)
    }

    /// See [`RatatuiCameraWidget::cell_to_ndc`]. Rather than the global cell
    /// coordinates, this variant takes the cell coordinates relative to the
    /// provided area.
    pub fn relative_cell_to_ndc(&self, area: Rect, cell_coords: CellCoords) -> (ndc: Ndc)
        requires
            self.wf(),
            area.x + area.width <= 0x1_0000,
            area.y + area.height <= 0x1_0000,
            1 <= spec_render_width(self.camera_image, area),
            1 <= spec_render_height(self.camera_image, area),
        ensures
            ndc == spec_relative_cell_to_ndc(self.camera_image, area, cell_coords),
    {
        let render_area = self.calculate_render_area(area);
        proof {
            assert(-0x100_0000_0000_0000 <= (cell_coords.x as int) * 131072
                <= 0x100_0000_0000_0000 && -0x100_0000_0000_0000 <= (cell_coords.y as int) * 131072
                <= 0x100_0000_0000_0000) by (nonlinear_arith)
                requires
                    -0x8000_0000 <= cell_coords.x <= 0x8000_0000,
                    -0x8000_0000 <= cell_coords.y <= 0x8000_0000,
            ;
        }
        let x = floor_div((cell_coords.x as i64) * 131072, render_area.width as i64) - 65536;
        let y = 65536 - floor_div((cell_coords.y as i64) * 131072, render_area.height as i64);

        Ndc { x, y, z: 32768 }
    }

    /// Convert normalized device coordinates representing a position in the
    /// camera viewport into a pair of terminal buffer cell coordinates
    /// (characters from the left and top edges of the buffer).
    pub fn ndc_to_cell(&self, area: Rect, ndc_coords: Ndc) -> (cell: CellCoords)
        requires
            self.wf(),
            area.x + area.width <= 0x1_0000,
            area.y + area.height <= 0x1_0000,
            1 <= spec_render_width(
                self.camera_image,
                spec_render_area(self.camera_image, area),
            ),
            1 <= spec_render_height(
                self.camera_image,
                spec_render_area(self.camera_image, area),
            ),
            -131072 <= ndc_coords.x <= 131072,
            -131072 <= ndc_coords.y <= 131072,
        ensures
            ({
                let render_area = spec_render_area(self.camera_image, area);
                let relative = spec_ndc_to_relative_cell(
                    self.camera_image,
                    render_area,
                    ndc_coords,
                );
                cell == CellCoords {
                    x: (relative.x + render_area.x) as i32,
                    y: (relative.y + render_area.y) as i32,
                }
            }),
    {
        let render_area = self.calculate_render_area(area);
        let cell = self.ndc_to_relative_cell(render_area, ndc_coords);

        CellCoords { x: cell.x + render_area.x as i32, y: cell.y + render_area.y as i32 }
    }

    /// See [`RatatuiCameraWidget::ndc_to_cell`]. Rather than the global cell
    /// coordinates, this variant gives the cell coordinates relative to the
    /// provided area.
    pub fn ndc_to_relative_cell(&self, area: Rect, ndc_coords: Ndc) -> (cell: CellCoords)
        requires
            self.wf(),
            area.x + area.width <= 0x1_0000,
            area.y + area.height <= 0x1_0000,
            1 <= spec_render_width(self.camera_image, area),
            1 <= spec_render_height(self.camera_image, area),
            -131072 <= ndc_coords.x <= 131072,
            -131072 <= ndc_coords.y <= 131072,
        ensures
            cell == spec_ndc_to_relative_cell(self.camera_image, area, ndc_coords),
            -0x2_0000 <= cell.x <= 0x2_0000,
            -0x2_0000 <= cell.y <= 0x2_0000,
    {
        let render_area = self.calculate_render_area(area);
        proof {
            assert(-0x4_0000_0000 <= (ndc_coords.x + 65536) * (render_area.width as int)
                <= 0x4_0000_0000 && -0x4_0000_0000 <= (65536 - ndc_coords.y) * (
            render_area.height as int) <= 0x4_0000_0000) by (nonlinear_arith)
                requires
                    -131072 <= ndc_coords.x <= 131072,
                    -131072 <= ndc_coords.y <= 131072,
                    0 <= render_area.width <= 0xFFFF,
                    0 <= render_area.height <= 0xFFFF,
            ;
        }
        let x = trunc_div((ndc_coords.x + 65536) * (render_area.width as i64), 131072);
        let y = trunc_div((65536 - ndc_coords.y) * (render_area.height as i64), 131072);
        proof {
            let nx = (ndc_coords.x + 65536) * (render_area.width as int);
            if nx >= 0 {
                vstd::arithmetic::div_mod::lemma_div_is_ordered(nx, 0x4_0000_0000, 131072);
            } else {
                vstd::arithmetic::div_mod::lemma_div_is_ordered(-nx, 0x4_0000_0000, 131072);
            }
            let ny = (65536 - ndc_coords.y) * (render_area.height as int);
            if ny >= 0 {
                vstd::arithmetic::div_mod::lemma_div_is_ordered(ny, 0x4_0000_0000, 131072);
            } else {
                vstd::arithmetic::div_mod::lemma_div_is_ordered(-ny, 0x4_0000_0000, 131072);
            }
        }
        CellCoords { x: x as i32, y: y as i32 }
    }
}

/// Law: converting a cell position, relative to the render sub-area computed
/// for an area, into normalized device coordinates and back returns a
/// position within one cell of the original: the position itself or its
/// neighbor one cell up or left, the loss coming from integer truncation.
/// This holds for every cell position in the terminal's 16-bit cell range,
/// so in particular for every cell inside the render sub-area.
pub proof fn lemma_ndc_round_trip(image: ColorImage, area: Rect, cell: CellCoords)
    requires
        1 <= spec_render_width(image, area),
        1 <= spec_render_height(image, area),
        0 <= cell.x <= 0xFFFF,
        0 <= cell.y <= 0xFFFF,
    ensures
        ({
            let back = spec_ndc_to_relative_cell(
                image,
                area,
                spec_relative_cell_to_ndc(image, area, cell),
            );
            &&& cell.x - 1 <= back.x <= cell.x
            &&& cell.y - 1 <= back.y <= cell.y
        }),
{
    let render_area = spec_render_area(image, area);
    let w = render_area.width as int;
    let h = render_area.height as int;
    assert(w == spec_render_width(image, area) && h == spec_render_height(image, area));

    lemma_scale_round_trip(cell.x as int, w);
    lemma_scale_round_trip(cell.y as int, h);

    let nx = cell.x * 131072;
    assert(0 <= cell.x * 131072 <= 0xFFFF * 131072) by (nonlinear_arith)
        requires
            0 <= cell.x <= 0xFFFF,
    ;
    vstd::arithmetic::div_mod::lemma_div_is_ordered(0, nx, w);
    vstd::arithmetic::div_mod::lemma_div_is_ordered_by_denominator(nx, 1, w);

    let ny = cell.y * 131072;
    assert(0 <= cell.y * 131072 <= 0xFFFF * 131072) by (nonlinear_arith)
        requires
            0 <= cell.y <= 0xFFFF,
    ;
    vstd::arithmetic::div_mod::lemma_div_is_ordered(0, ny, h);
    vstd::arithmetic::div_mod::lemma_div_is_ordered_by_denominator(ny, 1, h);

    // The way back scales a non-negative quotient, so truncation toward zero
    // agrees with the division the scale lemma speaks of.
    assert((nx / w) * w >= 0 && (ny / h) * h >= 0) by (nonlinear_arith)
        requires
            nx / w >= 0,
            ny / h >= 0,
            w >= 1,
            h >= 1,
    ;
}

/// Scaling a cell position up to fixed point, dividing by the span, and
/// mapping back down loses at most one cell to truncation.
proof fn lemma_scale_round_trip(c: int, span: int)
    requires
        1 <= span <= 0xFFFF,
        0 <= c <= 0xFFFF,
    ensures
        c - 1 <= ((c * 131072) / span) * span / 131072 <= c,
{
    let n = c * 131072;
    lemma_fundamental_div_mod(n, span);
    lemma_mod_bound(n, span);
    let q = n / span;
    let r = n % span;
    assert(n == span * q + r);
    assert(q * span == n - r) by (nonlinear_arith)
        requires
            n == span * q + r,
    ;
    if r == 0 {
        assert((q * span) / 131072 == c) by {
            assert(q * span == c * 131072);
            vstd::arithmetic::div_mod::lemma_div_by_multiple(c, 131072);
        }
    } else {
        assert(q * span == 131072 * (c - 1) + (131072 - r)) by {
            assert(n == c * 131072);
            assert(c * 131072 - r == 131072 * (c - 1) + (131072 - r)) by (nonlinear_arith);
        }
        assert(0 <= 131072 - r < 131072);
        lemma_fundamental_div_mod_converse(q * span, 131072, c - 1, 131072 - r);
    }
}

} // verus!

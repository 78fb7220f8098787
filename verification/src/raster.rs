use vstd::prelude::*;

use crate::color::Rgb;

verus! {

/// One RGBA8 pixel sample: red, green, blue and alpha, one byte each.
#[derive(Clone, Copy, Debug, PartialEq, Eq, Structural)]
pub struct Rgba {
    pub r: u8,
    pub g: u8,
    pub b: u8,
    pub a: u8,
}

impl Rgba {
    /// The color channels of this sample, without the alpha channel.
    pub fn rgb(self) -> (result: Rgb)
        ensures
            result == (Rgb { r: self.r, g: self.g, b: self.b }),
    {
        Rgb { r: self.r, g: self.g, b: self.b }
    }
}

/// One texel of an edge image: a gradient magnitude for each of the four
/// detected edge directions. All four zero means "no edge here".
#[derive(Clone, Copy, Debug, PartialEq, Eq, Structural)]
pub struct Gradient {
    pub vertical: u8,
    pub horizontal: u8,
    pub forward_diagonal: u8,
    pub backward_diagonal: u8,
}

/// A position within a raster of the given dimensions, read in row-major
/// order, stays within the raster's element count.
pub proof fn lemma_row_major_bound(x: int, y: int, width: int, height: int)
    requires
        0 <= x < width,
        0 <= y < height,
    ensures
        0 <= y * width + x < width * height,
{
    assert(0 <= y * width + x < width * height) by (nonlinear_arith)
        requires
            0 <= x < width,
            0 <= y < height,
    ;
}

/// Two different positions within a raster of the given dimensions map to
/// different row-major indices.
pub proof fn lemma_row_major_distinct(x1: int, y1: int, x2: int, y2: int, width: int, height: int)
    requires
        0 <= x1 < width,
        0 <= y1 < height,
        0 <= x2 < width,
        0 <= y2 < height,
        !(x1 == x2 && y1 == y2),
    ensures
        y1 * width + x1 != y2 * width + x2,
{
    assert(y1 * width + x1 != y2 * width + x2) by (nonlinear_arith)
        requires
            0 <= x1 < width,
            0 <= y1 < height,
            0 <= x2 < width,
            0 <= y2 < height,
            !(x1 == x2 && y1 == y2),
    ;
}

/// A product of two bounded non-negative values stays within the product of
/// the bounds.
pub proof fn lemma_mul_le(a: int, b: int, bound_a: int, bound_b: int)
    requires
        0 <= a <= bound_a,
        0 <= b <= bound_b,
    ensures
        a * b <= bound_a * bound_b,
{
    assert(a * b <= bound_a * bound_b) by (nonlinear_arith)
        requires
            0 <= a <= bound_a,
            0 <= b <= bound_b,
    ;
}

/// A raster within the dimension limit holds a bounded number of pixels.
pub proof fn lemma_raster_size(width: int, height: int)
    requires
        0 <= width <= 0x4000,
        0 <= height <= 0x4000,
    ensures
        width * height <= 0x1000_0000,
{
    assert(width * height <= 0x1000_0000) by (nonlinear_arith)
        requires
            0 <= width <= 0x4000,
            0 <= height <= 0x4000,
    ;
}

/// The largest raster edge the library accepts, a machine limit that keeps
/// every byte index inside `u32` and allocations reasonable.
pub const MAX_RASTER_DIM: u32 = 0x4000;

/// What `image`'s nearest-neighbor `resize` returns for a raw RGBA8 raster:
/// the raster scaled to the largest dimensions that fit within the given
/// bounds while preserving the aspect ratio, sampling each output pixel from
/// its nearest source pixel. The result depends on the arguments alone.
pub uninterp spec fn nearest_resize(
    data: Seq<u8>,
    width: u32,
    height: u32,
    bound_width: u32,
    bound_height: u32,
) -> (Seq<u8>, u32, u32);

/// Relies on `image::DynamicImage::resize` with `FilterType::Nearest`: the
/// documentation promises the output dimensions are the largest that fit
/// within the given bounds while preserving the aspect ratio (each at least
/// one), and the returned container holds four bytes per output pixel.
#[verifier::external_body]
fn resize_rgba_bytes(
    data: &Vec<u8>,
    width: u32,
    height: u32,
    bound_width: u32,
    bound_height: u32,
) -> (result: (Vec<u8>, u32, u32))
    requires
        1 <= width <= MAX_RASTER_DIM,
        1 <= height <= MAX_RASTER_DIM,
        1 <= bound_width <= MAX_RASTER_DIM,
        1 <= bound_height <= MAX_RASTER_DIM,
        data@.len() == 4 * (width * height),
    ensures
        (result.0@, result.1, result.2) == nearest_resize(
            data@,
            width,
            height,
            bound_width,
            bound_height,
        ),
        1 <= result.1 <= bound_width,
        1 <= result.2 <= bound_height,
        result.0@.len() == 4 * (result.1 * result.2),
{
    let buffer = image::RgbaImage::from_raw(width, height, data.clone()).unwrap();
    let resized = image::DynamicImage::ImageRgba8(buffer).resize(
        bound_width,
        bound_height,
        image::imageops::FilterType::Nearest,
    );
    let (out_width, out_height) = (resized.width(), resized.height());
    (resized.into_rgba8().into_raw(), out_width, out_height)
}

/// An immutable raster of RGBA8 pixels, row-major with the origin at the top
/// left, as produced once per frame by the external image provider.
#[derive(Clone, Debug)]
pub struct ColorImage {
    /// Width in pixels.
    pub width: u32,
    /// Height in pixels.
    pub height: u32,
    /// Four bytes per pixel: red, green, blue, alpha.
    pub data: Vec<u8>,
}

impl ColorImage {
    /// The raster's dimensions are within the machine limit and its byte
    /// container holds exactly four bytes per pixel.
    pub open spec fn wf(self) -> bool {
        &&& self.width <= MAX_RASTER_DIM
        &&& self.height <= MAX_RASTER_DIM
        &&& self.data@.len() == 4 * (self.width * self.height)
    }

    /// The pixel at a position, read from the byte container.
    pub open spec fn pixel_at(self, x: int, y: int) -> Rgba {
        let i = 4 * (y * self.width + x);
        Rgba {
            r: self.data@[i],
            g: self.data@[i + 1],
            b: self.data@[i + 2],
            a: self.data@[i + 3],
        }
    }

    /// Wrap a raw RGBA8 byte raster of the given dimensions.
    pub fn new(width: u32, height: u32, data: Vec<u8>) -> (image: ColorImage)
        requires
            width <= MAX_RASTER_DIM,
            height <= MAX_RASTER_DIM,
            data@.len() == 4 * (width * height),
        ensures
            image == (ColorImage { width, height, data }),
            image.wf(),
    {
        ColorImage { width, height, data }
    }

    /// Read the pixel at the given position.
    pub fn pixel(&self, x: u32, y: u32) -> (pixel: Rgba)
        requires
            self.wf(),
            x < self.width,
            y < self.height,
        ensures
            pixel == self.pixel_at(x as int, y as int),
    {
        proof {
            lemma_row_major_bound(x as int, y as int, self.width as int, self.height as int);
            lemma_raster_size(self.width as int, self.height as int);
        }
        let i: usize = 4 * ((y as usize) * (self.width as usize) + (x as usize));
        Rgba { r: self.data[i], g: self.data[i + 1], b: self.data[i + 2], a: self.data[i + 3] }
    }

    /// Scale the image to the largest dimensions that fit within the given
    /// bounds while preserving its aspect ratio, with nearest-neighbor
    /// sampling.
    pub fn resize_to_fit(&self, bound_width: u32, bound_height: u32) -> (resized: ColorImage)
        requires
            self.wf(),
            1 <= self.width,
            1 <= self.height,
            1 <= bound_width <= MAX_RASTER_DIM,
            1 <= bound_height <= MAX_RASTER_DIM,
        ensures
            resized.wf(),
            1 <= resized.width <= bound_width,
            1 <= resized.height <= bound_height,
            (resized.data@, resized.width, resized.height) == nearest_resize(
                self.data@,
                self.width,
                self.height,
                bound_width,
                bound_height,
            ),
    {
        let (data, width, height) = resize_rgba_bytes(
            &self.data,
            self.width,
            self.height,
            bound_width,
            bound_height,
        );
        ColorImage { width, height, data }
    }
}

/// The depth value encoded by four little-endian bytes: a fixed-point number
/// with 65536 standing for 1.0 (the near plane) and 0 for the far plane, so
/// that larger values are closer to the camera.
pub open spec fn depth_from_bytes(b0: u8, b1: u8, b2: u8, b3: u8) -> u32 {
    (b0 + 256 * b1 + 65536 * b2 + 16777216 * b3) as u32
}

/// An immutable raster of fixed-point depth values (one per color pixel, with
/// the same dimensions as the color image), encoding a "closer is larger"
/// metric: 65536 is at the near plane and 0 at or behind the far plane.
#[derive(Clone, Debug)]
pub struct DepthImage {
    /// Width in pixels.
    pub width: u32,
    /// Height in pixels.
    pub height: u32,
    /// Four little-endian bytes per depth value.
    pub data: Vec<u8>,
}

impl DepthImage {
    /// The raster's dimensions are within the machine limit and its byte
    /// container holds exactly four bytes per depth value.
    pub open spec fn wf(self) -> bool {
        &&& self.width <= MAX_RASTER_DIM
        &&& self.height <= MAX_RASTER_DIM
        &&& self.data@.len() == 4 * (self.width * self.height)
    }

    /// The depth value at a position, read from the byte container.
    pub open spec fn depth_at(self, x: int, y: int) -> u32 {
        let i = 4 * (y * self.width + x);
        depth_from_bytes(self.data@[i], self.data@[i + 1], self.data@[i + 2], self.data@[i + 3])
    }

    /// Wrap a raw byte raster of depth values of the given dimensions.
    pub fn new(width: u32, height: u32, data: Vec<u8>) -> (image: DepthImage)
        requires
            width <= MAX_RASTER_DIM,
            height <= MAX_RASTER_DIM,
            data@.len() == 4 * (width * height),
        ensures
            image == (DepthImage { width, height, data }),
            image.wf(),
    {
        DepthImage { width, height, data }
    }

    /// Read the depth value at the given position.
    pub fn depth(&self, x: u32, y: u32) -> (depth: u32)
        requires
            self.wf(),
            x < self.width,
            y < self.height,
        ensures
            depth == self.depth_at(x as int, y as int),
    {
        proof {
            lemma_row_major_bound(x as int, y as int, self.width as int, self.height as int);
            lemma_raster_size(self.width as int, self.height as int);
        }
        let i: usize = 4 * ((y as usize) * (self.width as usize) + (x as usize));
        self.data[i] as u32 + 256 * (self.data[i + 1] as u32) + 65536 * (self.data[i + 2] as u32)
            + 16777216 * (self.data[i + 3] as u32)
    }

    /// Scale the depth raster to the largest dimensions that fit within the
    /// given bounds while preserving its aspect ratio, with nearest-neighbor
    /// sampling (no depth values are blended).
    pub fn resize_to_fit(&self, bound_width: u32, bound_height: u32) -> (resized: DepthImage)
        requires
            self.wf(),
            1 <= self.width,
            1 <= self.height,
            1 <= bound_width <= MAX_RASTER_DIM,
            1 <= bound_height <= MAX_RASTER_DIM,
        ensures
            resized.wf(),
            1 <= resized.width <= bound_width,
            1 <= resized.height <= bound_height,
            (resized.data@, resized.width, resized.height) == nearest_resize(
                self.data@,
                self.width,
                self.height,
                bound_width,
                bound_height,
            ),
    {
        let (data, width, height) = resize_rgba_bytes(
            &self.data,
            self.width,
            self.height,
            bound_width,
            bound_height,
        );
        DepthImage { width, height, data }
    }
}

/// An immutable raster of edge-detection texels (same dimensions as the color
/// image), where each texel holds four gradient magnitudes, one per detected
/// edge direction.
#[derive(Clone, Debug)]
pub struct EdgeImage {
    /// Width in texels.
    pub width: u32,
    /// Height in texels.
    pub height: u32,
    /// Four bytes per texel: vertical, horizontal, forward-diagonal and
    /// backward-diagonal gradient magnitude.
    pub data: Vec<u8>,
}

impl EdgeImage {
    /// The raster's dimensions are within the machine limit and its byte
    /// container holds exactly four bytes per texel.
    pub open spec fn wf(self) -> bool {
        &&& self.width <= MAX_RASTER_DIM
        &&& self.height <= MAX_RASTER_DIM
        &&& self.data@.len() == 4 * (self.width * self.height)
    }

    /// The gradient texel at a position, read from the byte container.
    pub open spec fn gradient_at(self, x: int, y: int) -> Gradient {
        let i = 4 * (y * self.width + x);
        Gradient {
            vertical: self.data@[i],
            horizontal: self.data@[i + 1],
            forward_diagonal: self.data@[i + 2],
            backward_diagonal: self.data@[i + 3],
        }
    }

    /// Wrap a raw byte raster of gradient texels of the given dimensions.
    pub fn new(width: u32, height: u32, data: Vec<u8>) -> (image: EdgeImage)
        requires
            width <= MAX_RASTER_DIM,
            height <= MAX_RASTER_DIM,
            data@.len() == 4 * (width * height),
        ensures
            image == (EdgeImage { width, height, data }),
            image.wf(),
    {
        EdgeImage { width, height, data }
    }

    /// Read the gradient texel at the given position.
    pub fn gradient(&self, x: u32, y: u32) -> (gradient: Gradient)
        requires
            self.wf(),
            x < self.width,
            y < self.height,
        ensures
            gradient == self.gradient_at(x as int, y as int),
    {
        proof {
            lemma_row_major_bound(x as int, y as int, self.width as int, self.height as int);
            lemma_raster_size(self.width as int, self.height as int);
        }
        let i: usize = 4 * ((y as usize) * (self.width as usize) + (x as usize));
        Gradient {
            vertical: self.data[i],
            horizontal: self.data[i + 1],
            forward_diagonal: self.data[i + 2],
            backward_diagonal: self.data[i + 3],
        }
    }

    /// Scale the edge raster to the largest dimensions that fit within the
    /// given bounds while preserving its aspect ratio, with nearest-neighbor
    /// sampling (no gradient values are blended).
    pub fn resize_to_fit(&self, bound_width: u32, bound_height: u32) -> (resized: EdgeImage)
        requires
            self.wf(),
            1 <= self.width,
            1 <= self.height,
            1 <= bound_width <= MAX_RASTER_DIM,
            1 <= bound_height <= MAX_RASTER_DIM,
        ensures
            resized.wf(),
            1 <= resized.width <= bound_width,
            1 <= resized.height <= bound_height,
            (resized.data@, resized.width, resized.height) == nearest_resize(
                self.data@,
                self.width,
                self.height,
                bound_width,
                bound_height,
            ),
    {
        let (data, width, height) = resize_rgba_bytes(
            &self.data,
            self.width,
            self.height,
            bound_width,
            bound_height,
        );
        EdgeImage { width, height, data }
    }
}

} // verus!

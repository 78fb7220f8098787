use vstd::prelude::*;

use crate::cell_buffer::Rect;
use crate::raster::{lemma_row_major_bound, lemma_row_major_distinct, DepthImage};

verus! {

/// A depth buffer for keeping track of the world-space depth of each
/// character drawn to the terminal buffer, for occluding characters "behind"
/// others with respect to the camera.
///
/// For a given render area (in terminal cell dimensions), the depth buffer is
/// the same width as the render area, and twice the height (as terminal cells
/// are twice as high as they are wide). Coordinates provided when calling the
/// depth buffer's functions start from the top left.
///
/// Depth values are fixed-point numbers with 65536 at the near plane and 0 at
/// or behind the far plane, so the buffer records the highest value seen for
/// a given coordinate pair: within one frame a recorded depth only ever
/// increases.
#[derive(Clone, Debug)]
pub struct RatatuiCameraDepthBuffer {
    width: usize,
    height: usize,
    buffer: Vec<u32>,
}

impl RatatuiCameraDepthBuffer {
    /// The buffer holds one depth value per coordinate pair, and its
    /// dimensions are small enough that every index fits comfortably.
    pub closed spec fn wf(self) -> bool {
        &&& self.buffer@.len() == self.width * self.height
        &&& self.width <= 0xFFFF
        &&& self.height <= 0x1FFFE
        &&& self.width * self.height <= 0x4000_0000
    }

    /// Width in sub-pixel columns (one per render-area cell column).
    pub closed spec fn spec_width(self) -> int {
        self.width as int
    }

    /// Height in sub-pixel rows (two per render-area cell row).
    pub closed spec fn spec_height(self) -> int {
        self.height as int
    }

    /// The coordinates lie inside the buffer.
    pub open spec fn contains(self, x: int, y: int) -> bool {
        0 <= x < self.spec_width() && 0 <= y < self.spec_height()
    }

    /// The depth value recorded at the given coordinates.
    pub closed spec fn depth_at(self, x: int, y: int) -> u32 {
        self.buffer@[y * self.width + x]
    }

    /// Create a new depth buffer matching the provided area. Height is
    /// doubled because there are two pixels vertically per terminal cell,
    /// therefore two depths. Every entry starts at zero: nothing drawn,
    /// equivalent to the far plane.
    pub fn new(area: Rect) -> (buffer: RatatuiCameraDepthBuffer)
        requires
            2 * ((area.width as int) * (area.height as int)) <= 0x4000_0000,
        ensures
            buffer.wf(),
            buffer.spec_width() == area.width,
            buffer.spec_height() == 2 * area.height,
            forall|x: int, y: int| buffer.contains(x, y) ==> buffer.depth_at(x, y) == 0,
    {
        let width = area.width as usize;
        let height = (area.height as usize) * 2;
        proof {
            assert((width as int) * (height as int) == 2 * ((area.width as int) * (
            area.height as int))) by (nonlinear_arith)
                requires
                    width == area.width as int,
                    height == 2 * (area.height as int),
            ;
        }
        let total: usize = width * height;
        let mut buffer: Vec<u32> = Vec::new();
        let mut i: usize = 0;
        while i < total
            invariant
                i <= total,
                buffer@.len() == i,
                forall|k: int| 0 <= k < i ==> buffer@[k] == 0,
            decreases total - i,
        {
            buffer.push(0);
            i = i + 1;
        }
        let result = RatatuiCameraDepthBuffer { width, height, buffer };
        proof {
            assert forall|x: int, y: int| result.contains(x, y) implies result.depth_at(x, y)
                == 0 by {
                lemma_row_major_bound(x, y, result.width as int, result.height as int);
            }
        }
        result
    }

    /// Retrieve the depth value for the provided coordinates, or nothing when
    /// they lie outside the buffer.
    pub fn get(&self, x: usize, y: usize) -> (depth: Option<u32>)
        requires
            self.wf(),
        ensures
            depth is Some <==> self.contains(x as int, y as int),
            self.contains(x as int, y as int) ==> depth == Some(self.depth_at(x as int, y as int)),
    {
        let Some(index) = self.index(x, y) else { return None };
        Some(self.buffer[index])
    }

    /// Set the depth value for the provided coordinates, returning the value
    /// it replaces, or nothing (and leaving the buffer unchanged) when the
    /// coordinates lie outside the buffer.
    pub fn set(&mut self, x: usize, y: usize, depth: u32) -> (previous: Option<u32>)
        requires
            old(self).wf(),
        ensures
            final(self).wf(),
            final(self).spec_width() == old(self).spec_width(),
            final(self).spec_height() == old(self).spec_height(),
            previous is Some <==> old(self).contains(x as int, y as int),
            old(self).contains(x as int, y as int) ==> {
                &&& previous == Some(old(self).depth_at(x as int, y as int))
                &&& final(self).depth_at(x as int, y as int) == depth
            },
            forall|ox: int, oy: int|
                old(self).contains(ox, oy) && !(ox == x && oy == y) ==> final(self).depth_at(ox, oy)
                    == old(self).depth_at(ox, oy),
            !old(self).contains(x as int, y as int) ==> *final(self) == *old(self),
    {
        let Some(index) = self.index(x, y) else { return None };

        let previous = self.buffer[index];
        self.buffer[index] = depth;

        proof {
            assert forall|ox: int, oy: int|
                self.contains(ox, oy) && !(ox == x && oy == y) implies self.depth_at(ox, oy)
                == old(self).depth_at(ox, oy) by {
                lemma_row_major_bound(ox, oy, self.width as int, self.height as int);
                lemma_row_major_distinct(
                    ox,
                    oy,
                    x as int,
                    y as int,
                    self.width as int,
                    self.height as int,
                );
            }
        }

        Some(previous)
    }

    /// Compare a provided depth value against the depth value already
    /// recorded at the same coordinates. There are three possible results:
    /// - If the new depth value is equal or higher (closer), the recorded
    ///   depth is replaced and the result holds `true`: a character at the
    ///   new depth should be drawn.
    /// - If the new depth is less than recorded (further), the recorded depth
    ///   stays as it is and the result holds `false`: a character at the new
    ///   depth is occluded and should not be drawn.
    /// - If the provided coordinates are outside of the depth buffer, nothing
    ///   is returned and the buffer is unchanged.
    ///
    /// Either way no recorded depth ever decreases.
    pub fn compare_and_update(&mut self, x: usize, y: usize, depth: u32) -> (draw: Option<bool>)
        requires
            old(self).wf(),
        ensures
            final(self).wf(),
            final(self).spec_width() == old(self).spec_width(),
            final(self).spec_height() == old(self).spec_height(),
            draw is Some <==> old(self).contains(x as int, y as int),
            old(self).contains(x as int, y as int) ==> {
                &&& draw == Some(depth >= old(self).depth_at(x as int, y as int))
                &&& final(self).depth_at(x as int, y as int) == if depth >= old(self).depth_at(
                    x as int,
                    y as int,
                ) {
                    depth
                } else {
                    old(self).depth_at(x as int, y as int)
                }
            },
            forall|ox: int, oy: int|
                old(self).contains(ox, oy) && !(ox == x && oy == y) ==> final(self).depth_at(ox, oy)
                    == old(self).depth_at(ox, oy),
            !old(self).contains(x as int, y as int) ==> *final(self) == *old(self),
            forall|ox: int, oy: int|
                old(self).contains(ox, oy) ==> final(self).depth_at(ox, oy) >= old(
                    self,
                ).depth_at(ox, oy),
    {
        let Some(previous_depth) = self.get(x, y) else { return None };

        if depth >= previous_depth {
            self.set(x, y, depth);
            return Some(true);
        }

        Some(false)
    }

    /// See [`RatatuiCameraDepthBuffer::compare_and_update`]. This variant
    /// takes a depth image instead of a depth value, sampling the depth at
    /// the provided coordinates; nothing is returned (and the buffer is
    /// unchanged) when the coordinates lie outside the depth image or outside
    /// the buffer.
    pub fn compare_and_update_from_image(
        &mut self,
        x: u32,
        y: u32,
        depth_image: &DepthImage,
    ) -> (draw: Option<bool>)
        requires
            old(self).wf(),
            depth_image.wf(),
        ensures
            final(self).wf(),
            final(self).spec_width() == old(self).spec_width(),
            final(self).spec_height() == old(self).spec_height(),
            draw is Some <==> {
                &&& x < depth_image.width
                &&& y < depth_image.height
                &&& old(self).contains(x as int, y as int)
            },
            x < depth_image.width && y < depth_image.height && old(self).contains(
                x as int,
                y as int,
            ) ==> {
                let sampled = depth_image.depth_at(x as int, y as int);
                &&& draw == Some(sampled >= old(self).depth_at(x as int, y as int))
                &&& final(self).depth_at(x as int, y as int) == if sampled >= old(self).depth_at(
                    x as int,
                    y as int,
                ) {
                    sampled
                } else {
                    old(self).depth_at(x as int, y as int)
                }
            },
            forall|ox: int, oy: int|
                old(self).contains(ox, oy) && !(ox == x && oy == y) ==> final(self).depth_at(ox, oy)
                    == old(self).depth_at(ox, oy),
            !(x < depth_image.width && y < depth_image.height && old(self).contains(
                x as int,
                y as int,
            )) ==> *final(self) == *old(self),
            forall|ox: int, oy: int|
                old(self).contains(ox, oy) ==> final(self).depth_at(ox, oy) >= old(
                    self,
                ).depth_at(ox, oy),
    {
        if x >= depth_image.width || y >= depth_image.height {
            return None;
        }

        let depth = depth_image.depth(x, y);
        self.compare_and_update(x as usize, y as usize, depth)
    }

    /// Convert the provided 2D coordinates to an index in the flat buffer,
    /// returning nothing if the coordinates lie outside the bounds.
    fn index(&self, x: usize, y: usize) -> (index: Option<usize>)
        requires
            self.wf(),
        ensures
            index is Some <==> self.contains(x as int, y as int),
            self.contains(x as int, y as int) ==> index == Some(
                ((y * self.spec_width() + x) as usize),
            ),
            self.contains(x as int, y as int) ==> (y * self.spec_width() + x)
                < self.buffer@.len(),
    {
        if !self.valid_coordinates(x, y) {
            return None;
        }

        proof {
            lemma_row_major_bound(x as int, y as int, self.width as int, self.height as int);
        }
        Some(x + y * self.width)
    }

    /// Validate that the provided coordinates lie inside the width and height
    /// of the buffer.
    fn valid_coordinates(&self, x: usize, y: usize) -> (valid: bool)
        ensures
            valid == self.contains(x as int, y as int),
    {
        x < self.width && y < self.height
    }
}

} // verus!

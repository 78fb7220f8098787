use vstd::prelude::*;

use crate::color::Color;

verus! {

/// A rectangle of terminal cells: a position within the full terminal grid
/// and a size, both measured in character cells.
#[derive(Clone, Copy, Debug, PartialEq, Eq, Structural)]
pub struct Rect {
    /// Column of the left edge.
    pub x: u16,
    /// Row of the top edge.
    pub y: u16,
    /// Width in cells.
    pub width: u16,
    /// Height in cells.
    pub height: u16,
}

impl Rect {
    /// The rectangle contains the given absolute cell position.
    pub open spec fn contains(self, x: int, y: int) -> bool {
        &&& self.x <= x < self.x + self.width
        &&& self.y <= y < self.y + self.height
    }
}

/// One terminal character position: a glyph, a foreground color and a
/// background color. `Color::Reset` stands for the terminal's default.
#[derive(Clone, Copy, Debug, PartialEq, Eq, Structural)]
pub struct Cell {
    /// The glyph shown in this cell.
    pub symbol: char,
    /// The foreground color of the glyph.
    pub fg: Color,
    /// The background color behind the glyph.
    pub bg: Color,
}

impl Default for Cell {
    /// An untouched cell: a blank glyph over the terminal's default colors.
    fn default() -> (cell: Cell)
        ensures
            cell == (Cell { symbol: ' ', fg: Color::Reset, bg: Color::Reset }),
    {
        Cell { symbol: ' ', fg: Color::Reset, bg: Color::Reset }
    }
}

/// A mutable grid of terminal cells covering a rectangle of the terminal,
/// into which the conversion pipeline draws. Cells are stored row-major and
/// addressed by absolute terminal coordinates; writes outside the grid's
/// rectangle are ignored, so partial frames at the edges degrade gracefully.
#[derive(Clone, Debug)]
pub struct CellBuffer {
    /// The rectangle of the terminal this grid covers.
    pub area: Rect,
    /// The cells, row-major, one per position of `area`.
    pub cells: Vec<Cell>,
}

impl CellBuffer {
    /// The grid holds exactly one cell per position of its rectangle, and the
    /// rectangle stays within the terminal's 16-bit coordinate space.
    pub open spec fn wf(self) -> bool {
        &&& self.cells@.len() == self.area.width * self.area.height
        &&& self.area.x + self.area.width <= 0x1_0000
        &&& self.area.y + self.area.height <= 0x1_0000
    }

    /// The cell at an absolute terminal position inside the rectangle.
    pub open spec fn cell_at(self, x: int, y: int) -> Cell {
        self.cells@[(y - self.area.y) * self.area.width + (x - self.area.x)]
    }

    /// A fresh grid covering `area`, every cell untouched: a blank glyph over
    /// the terminal's default colors.
    pub fn new(area: Rect) -> (buffer: CellBuffer)
        requires
            area.x + area.width <= 0x1_0000,
            area.y + area.height <= 0x1_0000,
        ensures
            buffer.wf(),
            buffer.area == area,
            forall|x: int, y: int|
                area.contains(x, y) ==> buffer.cell_at(x, y) == (Cell {
                    symbol: ' ',
                    fg: Color::Reset,
                    bg: Color::Reset,
                }),
    {
        proof {
            crate::raster::lemma_mul_le(area.width as int, area.height as int, 0xFFFF, 0xFFFF);
        }
        let total: usize = (area.width as usize) * (area.height as usize);
        let mut cells: Vec<Cell> = Vec::new();
        let mut i: usize = 0;
        while i < total
            invariant
                i <= total,
                cells@.len() == i,
                forall|k: int|
                    0 <= k < i ==> cells@[k] == (Cell {
                        symbol: ' ',
                        fg: Color::Reset,
                        bg: Color::Reset,
                    }),
            decreases total - i,
        {
            cells.push(Cell { symbol: ' ', fg: Color::Reset, bg: Color::Reset });
            i = i + 1;
        }
        let buffer = CellBuffer { area, cells };
        proof {
            assert forall|x: int, y: int| area.contains(x, y) implies buffer.cell_at(x, y)
                == (Cell { symbol: ' ', fg: Color::Reset, bg: Color::Reset }) by {
                crate::raster::lemma_row_major_bound(
                    x - area.x,
                    y - area.y,
                    area.width as int,
                    area.height as int,
                );
            }
        }
        buffer
    }

    /// Read the cell at an absolute terminal position, or nothing when the
    /// position lies outside the grid's rectangle.
    pub fn cell(&self, x: u16, y: u16) -> (cell: Option<Cell>)
        requires
            self.wf(),
        ensures
            cell is Some <==> self.area.contains(x as int, y as int),
            self.area.contains(x as int, y as int) ==> cell == Some(
                self.cell_at(x as int, y as int),
            ),
    {
        if x < self.area.x || y < self.area.y {
            return None;
        }
        let dx = (x - self.area.x) as usize;
        let dy = (y - self.area.y) as usize;
        if dx >= self.area.width as usize || dy >= self.area.height as usize {
            return None;
        }
        proof {
            crate::raster::lemma_row_major_bound(
                dx as int,
                dy as int,
                self.area.width as int,
                self.area.height as int,
            );
            crate::raster::lemma_mul_le(
                self.area.width as int,
                self.area.height as int,
                0xFFFF,
                0xFFFF,
            );
        }
        Some(self.cells[dy * (self.area.width as usize) + dx])
    }

    /// Overwrite the cell at an absolute terminal position; a position
    /// outside the grid's rectangle leaves the grid unchanged.
    pub fn put_cell(&mut self, x: u16, y: u16, cell: Cell)
        requires
            old(self).wf(),
        ensures
            final(self).wf(),
            final(self).area == old(self).area,
            old(self).area.contains(x as int, y as int) ==> final(self).cell_at(x as int, y as int)
                == cell,
            forall|ox: int, oy: int|
                old(self).area.contains(ox, oy) && !(ox == x && oy == y) ==> final(self).cell_at(
                    ox,
                    oy,
                ) == old(self).cell_at(ox, oy),
            !old(self).area.contains(x as int, y as int) ==> *final(self) == *old(self),
    {
        if x < self.area.x || y < self.area.y {
            return ;
        }
        let dx = (x - self.area.x) as usize;
        let dy = (y - self.area.y) as usize;
        if dx >= self.area.width as usize || dy >= self.area.height as usize {
            return ;
        }
        proof {
            crate::raster::lemma_row_major_bound(
                dx as int,
                dy as int,
                self.area.width as int,
                self.area.height as int,
            );
            crate::raster::lemma_mul_le(
                self.area.width as int,
                self.area.height as int,
                0xFFFF,
                0xFFFF,
            );
        }
        let i: usize = dy * (self.area.width as usize) + dx;
        self.cells[i] = cell;
        proof {
            assert forall|ox: int, oy: int|
                self.area.contains(ox, oy) && !(ox == x && oy == y) implies self.cell_at(ox, oy)
                == old(self).cell_at(ox, oy) by {
                crate::raster::lemma_row_major_bound(
                    ox - self.area.x,
                    oy - self.area.y,
                    self.area.width as int,
                    self.area.height as int,
                );
                crate::raster::lemma_row_major_distinct(
                    ox - self.area.x,
                    oy - self.area.y,
                    dx as int,
                    dy as int,
                    self.area.width as int,
                    self.area.height as int,
                );
            }
        }
    }
}

} // verus!

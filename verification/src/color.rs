use vstd::prelude::*;

verus! {

/// A terminal color, as written into a terminal cell.
///
/// The named variants are the sixteen classic ANSI colors; `Indexed` refers to
/// one of the 256 predefined ANSI colors by table index; `Rgb` is an arbitrary
/// 24-bit color for terminals with full color support. `Reset` restores the
/// terminal's default and doubles as the "transparent" sentinel while
/// converting pixels to cells.
#[derive(Clone, Copy, Debug, PartialEq, Eq, Structural)]
pub enum Color {
    Reset,
    Black,
    Red,
    Green,
    Yellow,
    Blue,
    Magenta,
    Cyan,
    Gray,
    DarkGray,
    LightRed,
    LightGreen,
    LightYellow,
    LightBlue,
    LightMagenta,
    LightCyan,
    White,
    Rgb(u8, u8, u8),
    Indexed(u8),
}

/// A raw 24-bit color sample, one byte per channel.
#[derive(Clone, Copy, Debug, PartialEq, Eq, Structural)]
pub struct Rgb {
    pub r: u8,
    pub g: u8,
    pub b: u8,
}

} // verus!

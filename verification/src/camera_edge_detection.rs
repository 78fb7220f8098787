use vstd::prelude::*;

use crate::color::Color;

verus! {

/// How detected edges are drawn: either one fixed glyph for every edge, or a
/// glyph per gradient direction so edges follow their orientation.
#[derive(Clone, Copy, Debug, PartialEq, Eq, Structural)]
pub enum EdgeCharacters {
    /// Pick the glyph whose direction has the strongest gradient.
    Directional {
        /// Glyph for vertical edges.
        vertical: char,
        /// Glyph for horizontal edges.
        horizontal: char,
        /// Glyph for forward-diagonal edges.
        forward_diagonal: char,
        /// Glyph for backward-diagonal edges.
        backward_diagonal: char,
    },
    /// Use a single fixed glyph for every detected edge.
    Single(char),
}

/// Configuration for replacing cells that lie on a detected edge: the glyphs
/// to substitute and, optionally, a color that overrides the cell's own.
#[derive(Clone, Copy, Debug, PartialEq, Eq, Structural)]
pub struct RatatuiCameraEdgeDetection {
    /// The glyph or glyphs that replace a cell's glyph on an edge.
    pub edge_characters: EdgeCharacters,
    /// The color detected edges are drawn with; when absent, the cell keeps
    /// the color the strategy chose.
    pub edge_color: Option<Color>,
}

impl Default for RatatuiCameraEdgeDetection {
    /// Draw every detected edge as a plus sign in the cell's own color.
    fn default() -> (config: RatatuiCameraEdgeDetection)
        ensures
            config == (RatatuiCameraEdgeDetection {
                edge_characters: EdgeCharacters::Single('+'),
                edge_color: None::<Color>,
            }),
    {
        RatatuiCameraEdgeDetection { edge_characters: EdgeCharacters::Single('+'), edge_color: None }
    }
}

} // verus!

//! Conversion of rendered camera images into terminal character cells.
//!
//! A frame arrives as a color raster, optionally joined by a depth raster and
//! an edge-detection raster. The library scales the rasters to an
//! aspect-ratio-correct sub-area of the terminal, merges two scanlines into
//! each cell row, selects a glyph and colors per cell by the configured
//! strategy (halfblocks, luminance, depth, or edges only), applies depth
//! occlusion against a caller-owned depth buffer, overlays detected edges,
//! restricts colors to the terminal's supported palette, and writes the
//! result into a cell grid. Every function of the pipeline carries a proved
//! contract.

mod camera_edge_detection;
mod camera_strategy;
mod cell_buffer;
mod color;
mod color_range;
mod color_support;
mod raster;
mod widget;
mod widget_depth_buffer;
mod widget_math;
mod widget_strategy_depth;
mod widget_strategy_halfblocks;
mod widget_strategy_luminance;
mod widget_strategy_none;
mod widget_utilities;

pub use camera_edge_detection::{EdgeCharacters, RatatuiCameraEdgeDetection};
pub use camera_strategy::{
    characters_blocks, characters_braille, characters_misc, characters_shading, copy_characters,
    CharactersConfig, ColorChoice, ColorsConfig, CommonConfig, DepthConfig, HalfBlocksConfig,
    LuminanceConfig, RatatuiCameraStrategy, DEPTH_SCALE_DEFAULT, LUMINANCE_SCALE_DEFAULT,
    METRIC_ONE,
};
pub use cell_buffer::{Cell, CellBuffer, Rect};
pub use color::{Color, Rgb};
pub use color_range::{color_for_color_range, TerminalColorRange};
pub use color_support::{
    color_for_color_support, color_rgb_to_ansi_index, generate_ansi_colors_256,
    lemma_ansi16_idempotent, quantize_to_rgb, ColorSupport,
};
pub use raster::{ColorImage, DepthImage, EdgeImage, Gradient, Rgba, MAX_RASTER_DIM};
pub use widget::RatatuiCameraWidget;
pub use widget_depth_buffer::RatatuiCameraDepthBuffer;
pub use widget_math::{lemma_ndc_round_trip, CellCoords, Ndc};
pub use widget_strategy_depth::RatatuiCameraWidgetDepth;
pub use widget_strategy_halfblocks::{RatatuiCameraWidgetHalf, HALF_BLOCK};
pub use widget_strategy_luminance::RatatuiCameraWidgetLuminance;
pub use widget_strategy_none::RatatuiCameraWidgetNone;
pub use widget_utilities::{
    average_in_rgb, average_in_rgba, character_index, color_opt_for_color_support,
    colors_for_color_choices, coords_from_index, replace_detected_edges,
};

use vstd::prelude::*;

use crate::color::Color;
use crate::color_support::ColorSupport;

verus! {

/// One whole, in the fixed-point scale used for metrics (luminance, depth)
/// and for scaling factors: 65536 stands for 1.0.
pub const METRIC_ONE: u32 = 65536;

/// The default scaling value to multiply pixel depth by: 30 in fixed point.
pub const DEPTH_SCALE_DEFAULT: u32 = 30 * 65536;

/// The default scaling value to multiply pixel luminance by: 10 in fixed
/// point.
pub const LUMINANCE_SCALE_DEFAULT: u32 = 10 * 65536;

/// General configuration not specific to particular strategies.
#[derive(Clone, Copy, Debug, PartialEq, Eq, Structural)]
pub struct CommonConfig {
    /// If the alpha value of a rendered pixel is zero, skip writing that
    /// character to the terminal buffer. Useful for compositing camera images
    /// together: transparent pixels of a later layer leave an earlier layer
    /// as it is.
    pub transparent: bool,
}

impl Default for CommonConfig {
    /// Transparency handling starts enabled.
    fn default() -> (config: CommonConfig)
        ensures
            config == (CommonConfig { transparent: true }),
    {
        CommonConfig { transparent: true }
    }
}

/// Configuration pertaining to character selection, based on a per-cell
/// metric determined by the strategy.
#[derive(Clone, Debug)]
pub struct CharactersConfig {
    /// The list of characters, in increasing order of opacity, to pick from.
    pub list: Vec<char>,

    /// The fixed-point number each metric is multiplied by before it selects
    /// a character, since many scenes do not occupy the metric's full range.
    pub scale: u32,
}

/// Options for customizing a terminal buffer color (foreground or
/// background). Customization happens after depth detection and edge
/// detection, and before the conversion for color support and the
/// transparency check.
///
/// Only these two data-driven forms exist here: a per-cell callback supplied
/// by the host is a closure behind a trait object, which verified code cannot
/// hold, so such customization stands outside this library, in the host's own
/// adapter layer.
#[derive(Clone, Copy, Debug, PartialEq, Eq, Structural)]
pub enum ColorChoice {
    /// Overrides the color with a single provided color.
    Color(Color),

    /// Scales each channel of the calculated foreground color by the given
    /// fixed-point factor; 32768 gives a color half as bright.
    Scale(u32),
}

impl Default for ColorChoice {
    /// Half the brightness of the calculated foreground color.
    fn default() -> (choice: ColorChoice)
        ensures
            choice == ColorChoice::Scale(32768),
    {
        ColorChoice::Scale(32768)
    }
}

/// Configuration pertaining to color selection.
#[derive(Clone, Copy, Debug)]
pub struct ColorsConfig {
    /// If present, customizes how the foreground color is chosen per cell.
    pub foreground: Option<ColorChoice>,

    /// If present, customizes how the background color is chosen per cell.
    pub background: Option<ColorChoice>,

    /// The set of terminal colors to convert to; raw RGB colors are reduced
    /// to the nearest color of this set.
    pub support: ColorSupport,
}

impl Default for ColorsConfig {
    /// No per-cell customization, full color support.
    fn default() -> (config: ColorsConfig)
        ensures
            config == (ColorsConfig {
                foreground: None::<ColorChoice>,
                background: None::<ColorChoice>,
                support: ColorSupport::TrueColor,
            }),
    {
        ColorsConfig { foreground: None, background: None, support: ColorSupport::TrueColor }
    }
}

/// Configuration for the halfblocks rendering strategy.
#[derive(Clone, Copy, Debug)]
pub struct HalfBlocksConfig {
    /// Configuration options common to all strategies.
    pub common: CommonConfig,

    /// Configuration for determining the resulting colors.
    pub colors: ColorsConfig,
}

impl Default for HalfBlocksConfig {
    /// The common and color defaults, unchanged.
    fn default() -> (config: HalfBlocksConfig)
        ensures
            config.common == (CommonConfig { transparent: true }),
            config.colors.foreground is None,
            config.colors.background is None,
            config.colors.support is TrueColor,
    {
        HalfBlocksConfig { common: CommonConfig::default(), colors: ColorsConfig::default() }
    }
}

/// Configuration for the depth rendering strategy, which relies on a depth
/// image sampled alongside the color image.
#[derive(Clone, Debug)]
pub struct DepthConfig {
    /// Configuration options common to all strategies.
    pub common: CommonConfig,

    /// Configuration for determining the resulting characters.
    pub characters: CharactersConfig,

    /// Configuration for determining the resulting colors.
    pub colors: ColorsConfig,
}

impl Default for DepthConfig {
    /// The miscellaneous character list with the default depth scale, and the
    /// common and color defaults.
    fn default() -> (config: DepthConfig)
        ensures
            config.common == (CommonConfig { transparent: true }),
            config.characters.list@ == characters_misc_seq(),
            config.characters.scale == DEPTH_SCALE_DEFAULT,
            config.colors.foreground is None,
            config.colors.background is None,
            config.colors.support is TrueColor,
    {
        DepthConfig {
            common: CommonConfig::default(),
            characters: CharactersConfig {
                list: characters_misc(),
                scale: DEPTH_SCALE_DEFAULT,
            },
            colors: ColorsConfig::default(),
        }
    }
}

/// Configuration for the luminance rendering strategy.
#[derive(Clone, Debug)]
pub struct LuminanceConfig {
    /// Configuration options common to all strategies.
    pub common: CommonConfig,

    /// Configuration for determining the resulting characters.
    pub characters: CharactersConfig,

    /// Configuration for determining the resulting colors.
    pub colors: ColorsConfig,
}

impl Default for LuminanceConfig {
    /// The miscellaneous character list with the default luminance scale, and
    /// the common and color defaults.
    fn default() -> (config: LuminanceConfig)
        ensures
            config.common == (CommonConfig { transparent: true }),
            config.characters.list@ == characters_misc_seq(),
            config.characters.scale == LUMINANCE_SCALE_DEFAULT,
            config.colors.foreground is None,
            config.colors.background is None,
            config.colors.support is TrueColor,
    {
        LuminanceConfig {
            common: CommonConfig::default(),
            characters: CharactersConfig {
                list: characters_misc(),
                scale: LUMINANCE_SCALE_DEFAULT,
            },
            colors: ColorsConfig::default(),
        }
    }
}

/// Specify the strategy used for converting the camera's rendered image to
/// unicode characters for the terminal buffer.
#[derive(Clone, Debug)]
pub enum RatatuiCameraStrategy {
    /// Print to the terminal using unicode halfblock characters. By using
    /// both the halfblock (foreground) color and the background color, two
    /// pixels are drawn per buffer cell.
    HalfBlocks(HalfBlocksConfig),

    /// Given a range of unicode characters sorted in increasing order of
    /// opacity, use each pixel's luminance to select a character.
    Luminance(LuminanceConfig),

    /// Given a range of unicode characters sorted in increasing order of
    /// opacity, use each pixel's depth to select a character. Relies on a
    /// depth image sampled alongside the color image.
    Depth(DepthConfig),

    /// Does not print characters by itself, but edge detection still prints.
    /// Use with edge detection for a "wireframe".
    EdgesOnly,
}

impl Default for RatatuiCameraStrategy {
    /// The halfblocks strategy with its default configuration.
    fn default() -> (strategy: RatatuiCameraStrategy)
        ensures
            strategy matches RatatuiCameraStrategy::HalfBlocks(config) && config.common
                == (CommonConfig { transparent: true }) && config.colors.support is TrueColor,
    {
        RatatuiCameraStrategy::halfblocks()
    }
}

/// An element-for-element copy of a character list.
pub fn copy_characters(list: &Vec<char>) -> (copy: Vec<char>)
    ensures
        copy@ == list@,
{
    let mut copy: Vec<char> = Vec::new();
    let mut i: usize = 0;
    while i < list.len()
        invariant
            i <= list@.len(),
            copy@.len() == i,
            forall|k: int| 0 <= k < i ==> copy@[k] == list@[k],
        decreases list@.len() - i,
    {
        copy.push(list[i]);
        i = i + 1;
    }
    assert(copy@ =~= list@);
    copy
}

/// The range of braille unicode characters in increasing order of opacity.
pub open spec fn characters_braille_seq() -> Seq<char> {
    seq![' ', '\u{2802}', '\u{2812}', '\u{2816}', '\u{2836}', '\u{2837}', '\u{283f}', '\u{287f}', '\u{28ff}']
}

/// A range of braille unicode characters in increasing order of opacity.
pub fn characters_braille() -> (list: Vec<char>)
    ensures
        list@ == characters_braille_seq(),
{
    let mut list: Vec<char> = Vec::new();
    list.push(' ');
    list.push('\u{2802}');
    list.push('\u{2812}');
    list.push('\u{2816}');
    list.push('\u{2836}');
    list.push('\u{2837}');
    list.push('\u{283f}');
    list.push('\u{287f}');
    list.push('\u{28ff}');
    assert(list@ =~= characters_braille_seq());
    list
}

/// The range of miscellaneous characters in increasing order of opacity.
pub open spec fn characters_misc_seq() -> Seq<char> {
    seq![' ', '.', ':', '+', '=', '!', '*', '?', '#', '%', '&', '@']
}

/// A range of miscellaneous characters in increasing order of opacity.
pub fn characters_misc() -> (list: Vec<char>)
    ensures
        list@ == characters_misc_seq(),
{
    let mut list: Vec<char> = Vec::new();
    list.push(' ');
    list.push('.');
    list.push(':');
    list.push('+');
    list.push('=');
    list.push('!');
    list.push('*');
    list.push('?');
    list.push('#');
    list.push('%');
    list.push('&');
    list.push('@');
    assert(list@ =~= characters_misc_seq());
    list
}

/// The range of shading block characters in increasing order of opacity.
pub open spec fn characters_shading_seq() -> Seq<char> {
    seq![' ', '\u{2591}', '\u{2592}', '\u{2593}', '\u{2588}']
}

/// A range of block characters in increasing order of opacity.
pub fn characters_shading() -> (list: Vec<char>)
    ensures
        list@ == characters_shading_seq(),
{
    let mut list: Vec<char> = Vec::new();
    list.push(' ');
    list.push('\u{2591}');
    list.push('\u{2592}');
    list.push('\u{2593}');
    list.push('\u{2588}');
    assert(list@ =~= characters_shading_seq());
    list
}

/// The range of block characters in increasing order of size.
pub open spec fn characters_blocks_seq() -> Seq<char> {
    seq![' ', '\u{2581}', '\u{2582}', '\u{2583}', '\u{2584}', '\u{2585}', '\u{2586}', '\u{2587}', '\u{2588}']
}

/// A range of block characters in increasing order of size.
pub fn characters_blocks() -> (list: Vec<char>)
    ensures
        list@ == characters_blocks_seq(),
{
    let mut list: Vec<char> = Vec::new();
    list.push(' ');
    list.push('\u{2581}');
    list.push('\u{2582}');
    list.push('\u{2583}');
    list.push('\u{2584}');
    list.push('\u{2585}');
    list.push('\u{2586}');
    list.push('\u{2587}');
    list.push('\u{2588}');
    assert(list@ =~= characters_blocks_seq());
    list
}

impl RatatuiCameraStrategy {
    /// Halfblocks strategy using unicode halfblock characters, and the
    /// foreground and background colors of each cell.
    pub fn halfblocks() -> (strategy: RatatuiCameraStrategy)
        ensures
            strategy matches RatatuiCameraStrategy::HalfBlocks(config) && config.common
                == (CommonConfig { transparent: true }) && config.colors.support is TrueColor,
    {
        RatatuiCameraStrategy::HalfBlocks(HalfBlocksConfig::default())
    }

    /// Depth strategy with a provided list of characters.
    pub fn depth_with_characters(characters: Vec<char>) -> (strategy: RatatuiCameraStrategy)
        ensures
            strategy matches RatatuiCameraStrategy::Depth(config) && config.characters.list@
                == characters@ && config.characters.scale == DEPTH_SCALE_DEFAULT,
    {
        RatatuiCameraStrategy::Depth(
            DepthConfig {
                characters: CharactersConfig { list: characters, scale: DEPTH_SCALE_DEFAULT },
                ..DepthConfig::default()
            },
        )
    }

    /// Depth strategy with a range of braille unicode characters in
    /// increasing order of opacity.
    pub fn depth_braille() -> (strategy: RatatuiCameraStrategy)
        ensures
            strategy matches RatatuiCameraStrategy::Depth(config) && config.characters.list@
                == characters_braille_seq() && config.characters.scale == DEPTH_SCALE_DEFAULT,
    {
        RatatuiCameraStrategy::depth_with_characters(characters_braille())
    }

    /// Depth strategy with a range of miscellaneous characters in increasing
    /// order of opacity.
    pub fn depth_misc() -> (strategy: RatatuiCameraStrategy)
        ensures
            strategy matches RatatuiCameraStrategy::Depth(config) && config.characters.list@
                == characters_misc_seq() && config.characters.scale == DEPTH_SCALE_DEFAULT,
    {
        RatatuiCameraStrategy::depth_with_characters(characters_misc())
    }

    /// Depth strategy with a range of block characters in increasing order of
    /// opacity.
    pub fn depth_shading() -> (strategy: RatatuiCameraStrategy)
        ensures
            strategy matches RatatuiCameraStrategy::Depth(config) && config.characters.list@
                == characters_shading_seq() && config.characters.scale == DEPTH_SCALE_DEFAULT,
    {
        RatatuiCameraStrategy::depth_with_characters(characters_shading())
    }

    /// Depth strategy with a range of block characters in increasing order of
    /// size.
    pub fn depth_blocks() -> (strategy: RatatuiCameraStrategy)
        ensures
            strategy matches RatatuiCameraStrategy::Depth(config) && config.characters.list@
                == characters_blocks_seq() && config.characters.scale == DEPTH_SCALE_DEFAULT,
    {
        RatatuiCameraStrategy::depth_with_characters(characters_blocks())
    }

    /// Luminance strategy with a provided list of characters.
    pub fn luminance_with_characters(characters: Vec<char>) -> (strategy: RatatuiCameraStrategy)
        ensures
            strategy matches RatatuiCameraStrategy::Luminance(config) && config.characters.list@
                == characters@ && config.characters.scale == LUMINANCE_SCALE_DEFAULT,
    {
        RatatuiCameraStrategy::Luminance(
            LuminanceConfig {
                characters: CharactersConfig { list: characters, scale: LUMINANCE_SCALE_DEFAULT },
                ..LuminanceConfig::default()
            },
        )
    }

    /// Luminance strategy with a range of braille unicode characters in
    /// increasing order of opacity.
    pub fn luminance_braille() -> (strategy: RatatuiCameraStrategy)
        ensures
            strategy matches RatatuiCameraStrategy::Luminance(config) && config.characters.list@
                == characters_braille_seq() && config.characters.scale == LUMINANCE_SCALE_DEFAULT,
    {
        RatatuiCameraStrategy::luminance_with_characters(characters_braille())
    }

    /// Luminance strategy with a range of miscellaneous characters in
    /// increasing order of opacity.
    pub fn luminance_misc() -> (strategy: RatatuiCameraStrategy)
        ensures
            strategy matches RatatuiCameraStrategy::Luminance(config) && config.characters.list@
                == characters_misc_seq() && config.characters.scale == LUMINANCE_SCALE_DEFAULT,
    {
        RatatuiCameraStrategy::luminance_with_characters(characters_misc())
    }

    /// Luminance strategy with a range of block characters in increasing
    /// order of opacity.
    pub fn luminance_shading() -> (strategy: RatatuiCameraStrategy)
        ensures
            strategy matches RatatuiCameraStrategy::Luminance(config) && config.characters.list@
                == characters_shading_seq() && config.characters.scale == LUMINANCE_SCALE_DEFAULT,
    {
        RatatuiCameraStrategy::luminance_with_characters(characters_shading())
    }

    /// Luminance strategy with a range of block characters in increasing
    /// order of size.
    pub fn luminance_blocks() -> (strategy: RatatuiCameraStrategy)
        ensures
            strategy matches RatatuiCameraStrategy::Luminance(config) && config.characters.list@
                == characters_blocks_seq() && config.characters.scale == LUMINANCE_SCALE_DEFAULT,
    {
        RatatuiCameraStrategy::luminance_with_characters(characters_blocks())
    }
}

} // verus!

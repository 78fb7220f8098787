use ratatui_camera::{
    characters_blocks, characters_braille, characters_misc, characters_shading, ColorChoice,
    ColorSupport, CommonConfig, DepthConfig, HalfBlocksConfig, LuminanceConfig,
    RatatuiCameraStrategy, DEPTH_SCALE_DEFAULT, LUMINANCE_SCALE_DEFAULT,
};

#[test]
fn character_ranges_hold_the_documented_glyphs() {
    assert_eq!(characters_braille(), vec![' ', '⠂', '⠒', '⠖', '⠶', '⠷', '⠿', '⡿', '⣿']);
    assert_eq!(
        characters_misc(),
        vec![' ', '.', ':', '+', '=', '!', '*', '?', '#', '%', '&', '@']
    );
    assert_eq!(characters_shading(), vec![' ', '░', '▒', '▓', '█']);
    assert_eq!(characters_blocks(), vec![' ', '▁', '▂', '▃', '▄', '▅', '▆', '▇', '█']);
}

#[test]
fn defaults_match_the_documented_configuration() {
    assert_eq!(CommonConfig::default().transparent, true);
    assert_eq!(ColorChoice::default(), ColorChoice::Scale(32768));
    assert_eq!(DEPTH_SCALE_DEFAULT, 30 * 65536);
    assert_eq!(LUMINANCE_SCALE_DEFAULT, 10 * 65536);

    let config = DepthConfig::default();
    assert_eq!(config.characters.list, characters_misc());
    assert_eq!(config.characters.scale, DEPTH_SCALE_DEFAULT);
    assert!(config.colors.foreground.is_none());
    assert!(matches!(config.colors.support, ColorSupport::TrueColor));

    let config = LuminanceConfig::default();
    assert_eq!(config.characters.list, characters_misc());
    assert_eq!(config.characters.scale, LUMINANCE_SCALE_DEFAULT);

    let config = HalfBlocksConfig::default();
    assert!(config.common.transparent);
}

#[test]
fn strategy_builders_pick_their_character_ranges() {
    assert!(matches!(
        RatatuiCameraStrategy::default(),
        RatatuiCameraStrategy::HalfBlocks(_)
    ));
    assert!(matches!(
        RatatuiCameraStrategy::halfblocks(),
        RatatuiCameraStrategy::HalfBlocks(_)
    ));

    match RatatuiCameraStrategy::depth_braille() {
        RatatuiCameraStrategy::Depth(config) => {
            assert_eq!(config.characters.list, characters_braille());
            assert_eq!(config.characters.scale, DEPTH_SCALE_DEFAULT);
        },
        other => panic!("unexpected strategy {:?}", other),
    }
    match RatatuiCameraStrategy::depth_misc() {
        RatatuiCameraStrategy::Depth(config) => {
            assert_eq!(config.characters.list, characters_misc());
        },
        other => panic!("unexpected strategy {:?}", other),
    }
    match RatatuiCameraStrategy::depth_shading() {
        RatatuiCameraStrategy::Depth(config) => {
            assert_eq!(config.characters.list, characters_shading());
        },
        other => panic!("unexpected strategy {:?}", other),
    }
    match RatatuiCameraStrategy::depth_blocks() {
        RatatuiCameraStrategy::Depth(config) => {
            assert_eq!(config.characters.list, characters_blocks());
        },
        other => panic!("unexpected strategy {:?}", other),
    }
    match RatatuiCameraStrategy::depth_with_characters(vec!['a', 'b']) {
        RatatuiCameraStrategy::Depth(config) => {
            assert_eq!(config.characters.list, vec!['a', 'b']);
        },
        other => panic!("unexpected strategy {:?}", other),
    }

    match RatatuiCameraStrategy::luminance_braille() {
        RatatuiCameraStrategy::Luminance(config) => {
            assert_eq!(config.characters.list, characters_braille());
            assert_eq!(config.characters.scale, LUMINANCE_SCALE_DEFAULT);
        },
        other => panic!("unexpected strategy {:?}", other),
    }
    match RatatuiCameraStrategy::luminance_misc() {
        RatatuiCameraStrategy::Luminance(config) => {
            assert_eq!(config.characters.list, characters_misc());
        },
        other => panic!("unexpected strategy {:?}", other),
    }
    match RatatuiCameraStrategy::luminance_shading() {
        RatatuiCameraStrategy::Luminance(config) => {
            assert_eq!(config.characters.list, characters_shading());
        },
        other => panic!("unexpected strategy {:?}", other),
    }
    match RatatuiCameraStrategy::luminance_blocks() {
        RatatuiCameraStrategy::Luminance(config) => {
            assert_eq!(config.characters.list, characters_blocks());
        },
        other => panic!("unexpected strategy {:?}", other),
    }
    match RatatuiCameraStrategy::luminance_with_characters(vec!['x']) {
        RatatuiCameraStrategy::Luminance(config) => {
            assert_eq!(config.characters.list, vec!['x']);
        },
        other => panic!("unexpected strategy {:?}", other),
    }
}

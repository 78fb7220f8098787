use ratatui_camera::{
    color_for_color_range, color_for_color_support, color_rgb_to_ansi_index,
    generate_ansi_colors_256, quantize_to_rgb, Color, ColorSupport, Rgb, TerminalColorRange,
};

fn named_colors() -> Vec<Color> {
    vec![
        Color::Black,
        Color::Red,
        Color::Green,
        Color::Yellow,
        Color::Blue,
        Color::Magenta,
        Color::Cyan,
        Color::Gray,
        Color::DarkGray,
        Color::LightRed,
        Color::LightGreen,
        Color::LightYellow,
        Color::LightBlue,
        Color::LightMagenta,
        Color::LightCyan,
        Color::White,
    ]
}

#[test]
fn truecolor_passes_colors_through() {
    let color = Color::Rgb(12, 34, 56);
    assert_eq!(color_for_color_support(color, ColorSupport::TrueColor), color);
    assert_eq!(color_for_color_range(color, TerminalColorRange::Rgb), color);
    assert_eq!(
        color_for_color_support(Color::Indexed(42), ColorSupport::TrueColor),
        Color::Indexed(42)
    );
}

#[test]
fn ansi16_yields_one_of_sixteen_and_is_idempotent() {
    let samples = vec![
        Color::Rgb(0, 0, 0),
        Color::Rgb(255, 0, 0),
        Color::Rgb(10, 200, 30),
        Color::Rgb(130, 130, 130),
        Color::Rgb(250, 250, 10),
        Color::Rgb(1, 2, 3),
        Color::Indexed(196),
        Color::Indexed(17),
        Color::Cyan,
    ];
    let sixteen = named_colors();
    for color in samples {
        let reduced = color_for_color_support(color, ColorSupport::ANSI16);
        assert!(sixteen.contains(&reduced), "{:?} reduced to {:?}", color, reduced);
        let rgb = quantize_to_rgb(reduced).unwrap();
        let again = color_for_color_support(Color::Rgb(rgb.r, rgb.g, rgb.b), ColorSupport::ANSI16);
        assert_eq!(again, reduced, "requantizing {:?} changed the result", color);
    }
}

#[test]
fn ansi16_picks_nearest_named_color() {
    assert_eq!(
        color_for_color_support(Color::Rgb(255, 0, 0), ColorSupport::ANSI16),
        Color::LightRed
    );
    assert_eq!(color_for_color_support(Color::Rgb(0, 0, 0), ColorSupport::ANSI16), Color::Black);
    assert_eq!(
        color_for_color_support(Color::Rgb(255, 255, 255), ColorSupport::ANSI16),
        Color::White
    );
    assert_eq!(
        color_for_color_support(Color::Rgb(120, 0, 0), ColorSupport::ANSI16),
        Color::Red
    );
}

#[test]
fn ansi16_expands_indexed_colors_before_reducing() {
    // Entry 196 of the generated table is the cube corner (255, 0, 0).
    assert_eq!(
        color_for_color_support(Color::Indexed(196), ColorSupport::ANSI16),
        Color::LightRed
    );
    // Named colors are left alone rather than re-quantized.
    assert_eq!(color_for_color_support(Color::Cyan, ColorSupport::ANSI16), Color::Cyan);
}

#[test]
fn ansi256_picks_lowest_index_on_ties() {
    // (255, 0, 0) appears both at classic index 9 and in the color cube; the
    // lowest index wins.
    assert_eq!(
        color_for_color_support(Color::Rgb(255, 0, 0), ColorSupport::ANSI256),
        Color::Indexed(9)
    );
    // Indexed and named colors are never re-quantized toward the larger set.
    assert_eq!(
        color_for_color_support(Color::Indexed(3), ColorSupport::ANSI256),
        Color::Indexed(3)
    );
    assert_eq!(color_for_color_support(Color::Cyan, ColorSupport::ANSI256), Color::Cyan);
}

#[test]
fn generated_table_holds_expected_entries() {
    let table = generate_ansi_colors_256();
    assert_eq!(table.len(), 256);
    assert_eq!(table[0], Rgb { r: 0, g: 0, b: 0 });
    assert_eq!(table[9], Rgb { r: 255, g: 0, b: 0 });
    assert_eq!(table[16], Rgb { r: 0, g: 0, b: 0 });
    assert_eq!(table[17], Rgb { r: 0, g: 0, b: 51 });
    assert_eq!(table[196], Rgb { r: 255, g: 0, b: 0 });
    assert_eq!(table[231], Rgb { r: 255, g: 255, b: 255 });
    assert_eq!(table[232], Rgb { r: 8, g: 8, b: 8 });
    assert_eq!(table[255], Rgb { r: 238, g: 238, b: 238 });
}

#[test]
fn nearest_index_breaks_ties_by_lowest_index() {
    let palette = vec![Rgb { r: 5, g: 5, b: 5 }, Rgb { r: 5, g: 5, b: 5 }];
    assert_eq!(color_rgb_to_ansi_index(Rgb { r: 0, g: 0, b: 0 }, &palette), 0);

    let palette = vec![Rgb { r: 0, g: 0, b: 10 }, Rgb { r: 0, g: 0, b: 0 }];
    assert_eq!(color_rgb_to_ansi_index(Rgb { r: 0, g: 0, b: 1 }, &palette), 1);
}

#[test]
fn classic_range_uses_standard_cube_levels() {
    // The standard terminal table has (0, 0, 95) at index 17.
    assert_eq!(
        color_for_color_range(Color::Rgb(0, 0, 95), TerminalColorRange::ANSI256),
        Color::Indexed(17)
    );
    // The generated table instead steps in 51s, so the same input lands on a
    // different entry there: (0, 0, 102) at index 18 is nearest.
    assert_eq!(
        color_for_color_support(Color::Rgb(0, 0, 95), ColorSupport::ANSI256),
        Color::Indexed(18)
    );
}

#[test]
fn quantize_to_rgb_expands_by_table() {
    assert_eq!(quantize_to_rgb(Color::Red), Some(Rgb { r: 128, g: 0, b: 0 }));
    assert_eq!(quantize_to_rgb(Color::LightRed), Some(Rgb { r: 255, g: 0, b: 0 }));
    assert_eq!(quantize_to_rgb(Color::Indexed(17)), Some(Rgb { r: 0, g: 0, b: 51 }));
    assert_eq!(quantize_to_rgb(Color::Rgb(1, 2, 3)), Some(Rgb { r: 1, g: 2, b: 3 }));
    assert_eq!(quantize_to_rgb(Color::Reset), None);
}

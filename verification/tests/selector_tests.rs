use ratatui_camera::{
    character_index, CellBuffer, CharactersConfig, Color, ColorImage, ColorsConfig, CommonConfig,
    LuminanceConfig, RatatuiCameraWidgetLuminance, Rect, METRIC_ONE,
};

#[test]
fn zero_metric_selects_the_first_character() {
    assert_eq!(character_index(0, 5 * METRIC_ONE, 9), 0);
    assert_eq!(character_index(0, 1, 1), 0);
}

#[test]
fn saturated_metric_selects_the_last_character() {
    // A metric at or above one (after scaling by 1.0) saturates at the end of
    // the list.
    assert_eq!(character_index(METRIC_ONE, METRIC_ONE, 9), 8);
    assert_eq!(character_index(4_000_000, METRIC_ONE, 12), 11);
    assert_eq!(character_index(METRIC_ONE, 30 * METRIC_ONE, 5), 4);
}

#[test]
fn index_spreads_linearly_between_the_ends() {
    // Half of one, scale one, four characters: floor(0.5 * 4) picks index 2.
    assert_eq!(character_index(32768, METRIC_ONE, 4), 2);
    // A quarter picks index 1.
    assert_eq!(character_index(16384, METRIC_ONE, 4), 1);
    // Just below a boundary stays on the lower index.
    assert_eq!(character_index(16383, METRIC_ONE, 4), 0);
    // Scaling by two doubles the effective metric.
    assert_eq!(character_index(16384, 2 * METRIC_ONE, 4), 2);
}

fn solid_image(width: u32, height: u32, rgba: [u8; 4]) -> ColorImage {
    let mut data = Vec::new();
    for _ in 0..width * height {
        data.extend_from_slice(&rgba);
    }
    ColorImage::new(width, height, data)
}

fn luminance_config(scale: u32) -> LuminanceConfig {
    LuminanceConfig {
        common: CommonConfig { transparent: false },
        characters: CharactersConfig { list: vec![' ', '.', '+', '#'], scale },
        colors: ColorsConfig::default(),
    }
}

#[test]
fn white_saturates_and_black_stays_blank() {
    // Through the public luminance render: a white image must select the last
    // character and a black one the first, so the luminance sampling really
    // depends on the pixel values.
    let area = Rect { x: 0, y: 0, width: 1, height: 1 };

    let widget = RatatuiCameraWidgetLuminance::new(
        solid_image(1, 2, [255, 255, 255, 255]),
        None,
        None,
        luminance_config(METRIC_ONE),
        None,
    );
    let mut buf = CellBuffer::new(area);
    let mut depth_buffer = None;
    widget.render(area, &mut buf, &mut depth_buffer);
    let white_cell = buf.cell(0, 0).unwrap();
    assert_eq!(white_cell.symbol, '#');
    assert_eq!(white_cell.fg, Color::Rgb(255, 255, 255));

    let widget = RatatuiCameraWidgetLuminance::new(
        solid_image(1, 2, [0, 0, 0, 255]),
        None,
        None,
        luminance_config(METRIC_ONE),
        None,
    );
    let mut buf = CellBuffer::new(area);
    let mut depth_buffer = None;
    widget.render(area, &mut buf, &mut depth_buffer);
    let black_cell = buf.cell(0, 0).unwrap();
    assert_eq!(black_cell.symbol, ' ');
    assert_eq!(black_cell.fg, Color::Rgb(0, 0, 0));
}

#[test]
fn luminance_orders_brightness_between_gray_levels() {
    // A brighter gray never selects an earlier character than a darker one.
    let area = Rect { x: 0, y: 0, width: 1, height: 1 };
    let mut last_index = 0usize;
    let list = vec![' ', '.', ':', '+', '=', '*', '#', '@'];
    for level in [0u8, 40, 80, 120, 160, 200, 240, 255] {
        let widget = RatatuiCameraWidgetLuminance::new(
            solid_image(1, 2, [level, level, level, 255]),
            None,
            None,
            LuminanceConfig {
                common: CommonConfig { transparent: false },
                characters: CharactersConfig { list: list.clone(), scale: METRIC_ONE },
                colors: ColorsConfig::default(),
            },
            None,
        );
        let mut buf = CellBuffer::new(area);
        let mut depth_buffer = None;
        widget.render(area, &mut buf, &mut depth_buffer);
        let symbol = buf.cell(0, 0).unwrap().symbol;
        let index = list.iter().position(|&c| c == symbol).unwrap();
        assert!(index >= last_index, "brightness {} regressed to index {}", level, index);
        last_index = index;
    }
    assert_eq!(last_index, list.len() - 1);
}

#[test]
fn transparent_pixels_skip_the_whole_cell() {
    let area = Rect { x: 0, y: 0, width: 1, height: 1 };
    let widget = RatatuiCameraWidgetLuminance::new(
        solid_image(1, 2, [255, 255, 255, 0]),
        None,
        None,
        LuminanceConfig {
            common: CommonConfig { transparent: true },
            characters: CharactersConfig { list: vec![' ', '#'], scale: METRIC_ONE },
            colors: ColorsConfig::default(),
        },
        None,
    );
    let mut buf = CellBuffer::new(area);
    let mut depth_buffer = None;
    widget.render(area, &mut buf, &mut depth_buffer);
    let cell = buf.cell(0, 0).unwrap();
    assert_eq!(cell.symbol, ' ');
    assert_eq!(cell.fg, Color::Reset);
    assert_eq!(cell.bg, Color::Reset);
}

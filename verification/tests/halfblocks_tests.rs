use ratatui_camera::{
    Cell, CellBuffer, Color, ColorImage, ColorSupport, ColorsConfig, CommonConfig, EdgeCharacters,
    EdgeImage, HalfBlocksConfig, RatatuiCameraEdgeDetection, RatatuiCameraWidgetHalf, Rect,
    HALF_BLOCK,
};

fn solid_image(width: u32, height: u32, rgba: [u8; 4]) -> ColorImage {
    let mut data = Vec::new();
    for _ in 0..width * height {
        data.extend_from_slice(&rgba);
    }
    ColorImage::new(width, height, data)
}

fn config(transparent: bool, support: ColorSupport) -> HalfBlocksConfig {
    HalfBlocksConfig {
        common: CommonConfig { transparent },
        colors: ColorsConfig { foreground: None, background: None, support },
    }
}

#[test]
fn solid_red_image_fills_every_cell() {
    // A 4x4 solid red image drawn into a 2x2-cell area: every cell gets the
    // halfblock glyph with red above and below.
    let image = solid_image(4, 4, [255, 0, 0, 255]);
    let widget =
        RatatuiCameraWidgetHalf::new(image, None, None, config(false, ColorSupport::TrueColor), None);
    let area = Rect { x: 0, y: 0, width: 2, height: 2 };
    let mut buf = CellBuffer::new(area);
    let mut depth_buffer = None;
    widget.render(area, &mut buf, &mut depth_buffer);

    for x in 0..2 {
        for y in 0..2 {
            let cell = buf.cell(x, y).unwrap();
            assert_eq!(cell.symbol, HALF_BLOCK);
            assert_eq!(cell.symbol, '\u{2584}');
            assert_eq!(cell.fg, Color::Rgb(255, 0, 0));
            assert_eq!(cell.bg, Color::Rgb(255, 0, 0));
        }
    }
}

#[test]
fn transparent_upper_half_leaves_backgrounds_untouched() {
    // The upper sub-pixel of every cell (the even scanlines) is fully
    // transparent: with transparency enabled the background channel of every
    // cell is skipped while the foreground is set to red.
    let mut data = Vec::new();
    for y in 0..4 {
        for _x in 0..4 {
            if y % 2 == 0 {
                data.extend_from_slice(&[255, 0, 0, 0]);
            } else {
                data.extend_from_slice(&[255, 0, 0, 255]);
            }
        }
    }
    let image = ColorImage::new(4, 4, data);
    let widget =
        RatatuiCameraWidgetHalf::new(image, None, None, config(true, ColorSupport::TrueColor), None);
    let area = Rect { x: 0, y: 0, width: 2, height: 2 };
    let mut buf = CellBuffer::new(area);
    let mut depth_buffer = None;
    widget.render(area, &mut buf, &mut depth_buffer);

    for x in 0..2 {
        for y in 0..2 {
            let cell = buf.cell(x, y).unwrap();
            assert_eq!(cell.bg, Color::Reset, "background must stay untouched");
            assert_eq!(cell.fg, Color::Rgb(255, 0, 0));
            assert_eq!(cell.symbol, HALF_BLOCK);
        }
    }
}

#[test]
fn cells_outside_the_area_stay_untouched() {
    let image = solid_image(2, 2, [0, 255, 0, 255]);
    let widget =
        RatatuiCameraWidgetHalf::new(image, None, None, config(false, ColorSupport::TrueColor), None);
    let buf_area = Rect { x: 0, y: 0, width: 4, height: 4 };
    let mut buf = CellBuffer::new(buf_area);
    let mut depth_buffer = None;
    // Render into a 2x2 area at (1, 1): only (1..3, 1) can be drawn (the
    // 2x2-pixel image covers one cell row of two cells).
    widget.render(Rect { x: 1, y: 1, width: 2, height: 2 }, &mut buf, &mut depth_buffer);

    let untouched = Cell { symbol: ' ', fg: Color::Reset, bg: Color::Reset };
    assert_eq!(buf.cell(0, 0).unwrap(), untouched);
    assert_eq!(buf.cell(3, 3).unwrap(), untouched);
    assert_eq!(buf.cell(1, 2).unwrap(), untouched);
    let drawn = buf.cell(1, 1).unwrap();
    assert_eq!(drawn.fg, Color::Rgb(0, 255, 0));
    assert_eq!(drawn.bg, Color::Rgb(0, 255, 0));
    let drawn = buf.cell(2, 1).unwrap();
    assert_eq!(drawn.symbol, HALF_BLOCK);
}

#[test]
fn ansi16_support_reduces_written_colors() {
    let image = solid_image(2, 2, [255, 0, 0, 255]);
    let widget =
        RatatuiCameraWidgetHalf::new(image, None, None, config(false, ColorSupport::ANSI16), None);
    let area = Rect { x: 0, y: 0, width: 2, height: 1 };
    let mut buf = CellBuffer::new(area);
    let mut depth_buffer = None;
    widget.render(area, &mut buf, &mut depth_buffer);

    let cell = buf.cell(0, 0).unwrap();
    assert_eq!(cell.fg, Color::LightRed);
    assert_eq!(cell.bg, Color::LightRed);
}

#[test]
fn detected_edges_replace_the_halfblock_glyph() {
    let image = solid_image(2, 2, [10, 10, 10, 255]);
    // One texel with a strong horizontal gradient at cell (0, 0); the rest
    // zero. The edge raster has one texel per pixel.
    let mut edge_data = vec![0u8; 2 * 2 * 4];
    edge_data[1] = 9;
    let sobel = EdgeImage::new(2, 2, edge_data);
    let edge_detection = RatatuiCameraEdgeDetection {
        edge_characters: EdgeCharacters::Directional {
            vertical: '|',
            horizontal: '-',
            forward_diagonal: '/',
            backward_diagonal: '\\',
        },
        edge_color: Some(Color::Cyan),
    };
    let widget = RatatuiCameraWidgetHalf::new(
        image,
        None,
        Some(sobel),
        config(false, ColorSupport::TrueColor),
        Some(edge_detection),
    );
    let area = Rect { x: 0, y: 0, width: 2, height: 1 };
    let mut buf = CellBuffer::new(area);
    let mut depth_buffer = None;
    widget.render(area, &mut buf, &mut depth_buffer);

    let edge_cell = buf.cell(0, 0).unwrap();
    assert_eq!(edge_cell.symbol, '-');
    assert_eq!(edge_cell.fg, Color::Cyan);
    assert_eq!(edge_cell.bg, Color::Rgb(10, 10, 10));
    let plain_cell = buf.cell(1, 0).unwrap();
    assert_eq!(plain_cell.symbol, HALF_BLOCK);
    assert_eq!(plain_cell.fg, Color::Rgb(10, 10, 10));
}

#[test]
fn depth_tests_gate_each_channel_independently() {
    let image = solid_image(1, 2, [200, 0, 0, 255]);
    // Depth raster: upper sub-pixel close (1.0), lower far (0.25).
    let mut depth_data = Vec::new();
    depth_data.extend_from_slice(&65536u32.to_le_bytes());
    depth_data.extend_from_slice(&16384u32.to_le_bytes());
    let depth_image = ratatui_camera::DepthImage::new(1, 2, depth_data);

    let area = Rect { x: 0, y: 0, width: 1, height: 1 };
    let mut depth_buffer = Some(ratatui_camera::RatatuiCameraDepthBuffer::new(area));
    // Pre-record a closer depth at the lower sub-pixel so its draw fails.
    depth_buffer.as_mut().unwrap().set(0, 1, 30000);

    let widget = RatatuiCameraWidgetHalf::new(
        image,
        Some(depth_image),
        None,
        config(false, ColorSupport::TrueColor),
        None,
    );
    let mut buf = CellBuffer::new(area);
    widget.render(area, &mut buf, &mut depth_buffer);

    let cell = buf.cell(0, 0).unwrap();
    // Background (upper sub-pixel) passed its test and was written; the
    // foreground failed its own and was skipped, so no glyph was written.
    assert_eq!(cell.bg, Color::Rgb(200, 0, 0));
    assert_eq!(cell.fg, Color::Reset);
    assert_eq!(cell.symbol, ' ');
    // The depth buffer recorded the winning depth and kept the closer one.
    assert_eq!(depth_buffer.as_ref().unwrap().get(0, 0), Some(65536));
    assert_eq!(depth_buffer.as_ref().unwrap().get(0, 1), Some(30000));
}

use ratatui_camera::{
    CellBuffer, CharactersConfig, Color, ColorImage, ColorsConfig, CommonConfig, DepthConfig,
    DepthImage, EdgeCharacters, EdgeImage, RatatuiCameraEdgeDetection, RatatuiCameraStrategy,
    RatatuiCameraWidget, RatatuiCameraWidgetDepth, RatatuiCameraWidgetNone, Rect, HALF_BLOCK,
    METRIC_ONE,
};

fn solid_image(width: u32, height: u32, rgba: [u8; 4]) -> ColorImage {
    let mut data = Vec::new();
    for _ in 0..width * height {
        data.extend_from_slice(&rgba);
    }
    ColorImage::new(width, height, data)
}

fn solid_depth(width: u32, height: u32, depth: u32) -> DepthImage {
    let mut data = Vec::new();
    for _ in 0..width * height {
        data.extend_from_slice(&depth.to_le_bytes());
    }
    DepthImage::new(width, height, data)
}

fn widget(camera_image: ColorImage, strategy: RatatuiCameraStrategy) -> RatatuiCameraWidget {
    RatatuiCameraWidget {
        camera_image,
        depth_image: None,
        sobel_image: None,
        strategy,
        edge_detection: None,
        last_area: Rect { x: 0, y: 0, width: 0, height: 0 },
    }
}

#[test]
fn resize_images_to_area_scales_within_the_bounds() {
    // A 4x4 image resized for a 2-cell-wide, 1-cell-tall area: the bounds are
    // 2x2 pixels, so the output must be a 2x2 raster of 16 bytes.
    let widget = widget(solid_image(4, 4, [9, 8, 7, 255]), RatatuiCameraStrategy::halfblocks());
    let (camera, depth, sobel) =
        widget.resize_images_to_area(Rect { x: 0, y: 0, width: 2, height: 1 });
    assert_eq!((camera.width, camera.height), (2, 2));
    assert_eq!(camera.data.len(), 16);
    assert!(depth.is_none());
    assert!(sobel.is_none());
    // Nearest-neighbor sampling of a solid image keeps the color everywhere.
    for chunk in camera.data.chunks(4) {
        assert_eq!(chunk, [9, 8, 7, 255]);
    }
}

#[test]
fn resize_keeps_the_aspect_ratio() {
    // An 8x4 image into 4x4 bounds: the largest aspect-preserving fit is 4x2.
    let widget = widget(solid_image(8, 4, [1, 2, 3, 4]), RatatuiCameraStrategy::halfblocks());
    let (camera, _, _) = widget.resize_images_to_area(Rect { x: 0, y: 0, width: 4, height: 2 });
    assert_eq!((camera.width, camera.height), (4, 2));
    assert_eq!(camera.data.len(), 32);
}

#[test]
fn full_widget_render_letterboxes_and_draws() {
    // A 4x4 red image rendered through the whole pipeline into a 2x2 area:
    // the aspect-correct sub-area is 2 cells wide and 1 tall, so one cell row
    // is drawn and the other left untouched.
    let widget = widget(
        solid_image(4, 4, [255, 0, 0, 255]),
        RatatuiCameraStrategy::halfblocks(),
    );
    let area = Rect { x: 0, y: 0, width: 2, height: 2 };
    let mut buf = CellBuffer::new(area);
    let mut depth_buffer = None;
    widget.render(area, &mut buf, &mut depth_buffer);

    for x in 0..2 {
        let drawn = buf.cell(x, 0).unwrap();
        assert_eq!(drawn.symbol, HALF_BLOCK);
        assert_eq!(drawn.fg, Color::Rgb(255, 0, 0));
        assert_eq!(drawn.bg, Color::Rgb(255, 0, 0));
        let untouched = buf.cell(x, 1).unwrap();
        assert_eq!(untouched.symbol, ' ');
        assert_eq!(untouched.fg, Color::Reset);
    }
}

#[test]
fn depth_strategy_picks_characters_by_depth() {
    let camera_image = solid_image(2, 2, [50, 60, 70, 255]);
    let near = solid_depth(2, 2, METRIC_ONE);
    let config = DepthConfig {
        common: CommonConfig { transparent: true },
        characters: CharactersConfig { list: vec![' ', '.', '@'], scale: METRIC_ONE },
        colors: ColorsConfig::default(),
    };
    let strategy = RatatuiCameraWidgetDepth::new(camera_image, Some(near), None, config, None);
    let area = Rect { x: 0, y: 0, width: 2, height: 1 };
    let mut buf = CellBuffer::new(area);
    let mut depth_buffer = None;
    strategy.render(area, &mut buf, &mut depth_buffer);
    let cell = buf.cell(0, 0).unwrap();
    assert_eq!(cell.symbol, '@');
    assert_eq!(cell.fg, Color::Rgb(50, 60, 70));
}

#[test]
fn depth_strategy_skips_zero_depth_cells() {
    // Depth exactly zero means nothing was rendered there: the cell gets no
    // color and, with transparency on, stays untouched.
    let camera_image = solid_image(1, 2, [50, 60, 70, 255]);
    let far = solid_depth(1, 2, 0);
    let config = DepthConfig {
        common: CommonConfig { transparent: true },
        characters: CharactersConfig { list: vec![' ', '@'], scale: METRIC_ONE },
        colors: ColorsConfig::default(),
    };
    let strategy = RatatuiCameraWidgetDepth::new(camera_image, Some(far), None, config, None);
    let area = Rect { x: 0, y: 0, width: 1, height: 1 };
    let mut buf = CellBuffer::new(area);
    let mut depth_buffer = None;
    strategy.render(area, &mut buf, &mut depth_buffer);
    let cell = buf.cell(0, 0).unwrap();
    assert_eq!(cell.symbol, ' ');
    assert_eq!(cell.fg, Color::Reset);
}

#[test]
fn depth_strategy_draws_nothing_without_a_depth_image() {
    let camera_image = solid_image(2, 2, [50, 60, 70, 255]);
    let config = DepthConfig {
        common: CommonConfig { transparent: false },
        characters: CharactersConfig { list: vec![' ', '@'], scale: METRIC_ONE },
        colors: ColorsConfig::default(),
    };
    let strategy = RatatuiCameraWidgetDepth::new(camera_image, None, None, config, None);
    let area = Rect { x: 0, y: 0, width: 2, height: 1 };
    let mut buf = CellBuffer::new(area);
    let mut depth_buffer = None;
    strategy.render(area, &mut buf, &mut depth_buffer);
    assert_eq!(buf.cell(0, 0).unwrap().fg, Color::Reset);
}

#[test]
fn shared_depth_buffer_occludes_across_renders() {
    // Two depth-strategy renders share one depth buffer: the second, farther
    // layer is occluded by the record the first one left.
    let area = Rect { x: 0, y: 0, width: 1, height: 1 };
    let config = || DepthConfig {
        common: CommonConfig { transparent: true },
        characters: CharactersConfig { list: vec!['.', '@'], scale: METRIC_ONE },
        colors: ColorsConfig::default(),
    };
    let mut depth_buffer = Some(ratatui_camera::RatatuiCameraDepthBuffer::new(area));

    let near = RatatuiCameraWidgetDepth::new(
        solid_image(1, 2, [255, 0, 0, 255]),
        Some(solid_depth(1, 2, 60000)),
        None,
        config(),
        None,
    );
    let mut buf = CellBuffer::new(area);
    near.render(area, &mut buf, &mut depth_buffer);
    assert_eq!(buf.cell(0, 0).unwrap().fg, Color::Rgb(255, 0, 0));

    let far = RatatuiCameraWidgetDepth::new(
        solid_image(1, 2, [0, 0, 255, 255]),
        Some(solid_depth(1, 2, 30000)),
        None,
        config(),
        None,
    );
    far.render(area, &mut buf, &mut depth_buffer);
    // The farther layer failed its depth test: the cell keeps the red layer.
    assert_eq!(buf.cell(0, 0).unwrap().fg, Color::Rgb(255, 0, 0));
}

#[test]
fn edges_only_draws_just_the_overlay() {
    let camera_image = solid_image(2, 2, [10, 20, 30, 255]);
    let mut edge_data = vec![0u8; 2 * 2 * 4];
    edge_data[0] = 5;
    let sobel = EdgeImage::new(2, 2, edge_data);
    let edge_detection = RatatuiCameraEdgeDetection {
        edge_characters: EdgeCharacters::Single('#'),
        edge_color: None,
    };
    let strategy = RatatuiCameraWidgetNone::new(camera_image, Some(sobel), Some(edge_detection));
    let area = Rect { x: 0, y: 0, width: 2, height: 1 };
    let mut buf = CellBuffer::new(area);
    strategy.render(area, &mut buf);
    // The edge cell shows the overlay glyph in the image's color.
    let edge_cell = buf.cell(0, 0).unwrap();
    assert_eq!(edge_cell.symbol, '#');
    assert_eq!(edge_cell.fg, Color::Rgb(10, 20, 30));
    // The base image contributes nothing of its own: the cell without an
    // edge stays completely untouched.
    let plain_cell = buf.cell(1, 0).unwrap();
    assert_eq!(plain_cell.symbol, ' ');
    assert_eq!(plain_cell.fg, Color::Reset);
    assert_eq!(plain_cell.bg, Color::Reset);
}

#[test]
fn edges_only_without_a_raster_draws_nothing() {
    let camera_image = solid_image(2, 2, [10, 20, 30, 255]);
    let strategy = RatatuiCameraWidgetNone::new(camera_image, None, None);
    let area = Rect { x: 0, y: 0, width: 2, height: 1 };
    let mut buf = CellBuffer::new(area);
    strategy.render(area, &mut buf);
    assert_eq!(buf.cell(0, 0).unwrap().fg, Color::Reset);
    assert_eq!(buf.cell(0, 0).unwrap().symbol, ' ');
}

#[test]
fn luminance_widget_render_through_the_dispatcher() {
    let strategy = RatatuiCameraStrategy::Luminance(ratatui_camera::LuminanceConfig {
        common: CommonConfig { transparent: false },
        characters: CharactersConfig { list: vec![' ', '#'], scale: METRIC_ONE },
        colors: ColorsConfig::default(),
    });
    let widget = widget(solid_image(4, 4, [255, 255, 255, 255]), strategy);
    let area = Rect { x: 0, y: 0, width: 2, height: 2 };
    let mut buf = CellBuffer::new(area);
    let mut depth_buffer = None;
    widget.render(area, &mut buf, &mut depth_buffer);
    // The aspect-correct sub-area is one cell row; white saturates to '#'.
    assert_eq!(buf.cell(0, 0).unwrap().symbol, '#');
    assert_eq!(buf.cell(1, 0).unwrap().fg, Color::Rgb(255, 255, 255));
}

#[test]
fn depth_strategy_through_the_dispatcher() {
    let camera_image = solid_image(4, 4, [80, 90, 100, 255]);
    let depth_image = solid_depth(4, 4, METRIC_ONE);
    let widget = RatatuiCameraWidget {
        camera_image,
        depth_image: Some(depth_image),
        sobel_image: None,
        strategy: RatatuiCameraStrategy::Depth(DepthConfig {
            common: CommonConfig { transparent: true },
            characters: CharactersConfig { list: vec![' ', '@'], scale: METRIC_ONE },
            colors: ColorsConfig::default(),
        }),
        edge_detection: None,
        last_area: Rect { x: 0, y: 0, width: 0, height: 0 },
    };
    let area = Rect { x: 0, y: 0, width: 2, height: 2 };
    let mut buf = CellBuffer::new(area);
    let mut depth_buffer = Some(ratatui_camera::RatatuiCameraDepthBuffer::new(area));
    widget.render(area, &mut buf, &mut depth_buffer);
    // The aspect-correct sub-area is one cell row; near depth saturates to '@'.
    let cell = buf.cell(0, 0).unwrap();
    assert_eq!(cell.symbol, '@');
    assert_eq!(cell.fg, Color::Rgb(80, 90, 100));
    // The shared depth buffer recorded the drawn depths.
    assert_eq!(depth_buffer.as_ref().unwrap().get(0, 0), Some(METRIC_ONE));
    assert_eq!(depth_buffer.as_ref().unwrap().get(1, 1), Some(METRIC_ONE));
}

use ratatui_camera::{
    CellCoords, ColorImage, RatatuiCameraStrategy, RatatuiCameraWidget, Rect,
};

fn widget_with_image(width: u32, height: u32) -> RatatuiCameraWidget {
    let data = vec![0u8; (width * height * 4) as usize];
    RatatuiCameraWidget {
        camera_image: ColorImage::new(width, height, data),
        depth_image: None,
        sobel_image: None,
        strategy: RatatuiCameraStrategy::halfblocks(),
        edge_detection: None,
        last_area: Rect { x: 0, y: 0, width: 0, height: 0 },
    }
}

#[test]
fn square_image_fills_a_double_wide_area() {
    // A 64x64 image has an effective cell aspect ratio of 2.0, so an 80x40
    // area is filled exactly: the result is wider than tall and contained.
    let widget = widget_with_image(64, 64);
    let area = Rect { x: 0, y: 0, width: 80, height: 40 };
    let render_area = widget.calculate_render_area(area);
    assert_eq!(render_area, Rect { x: 0, y: 0, width: 80, height: 40 });
    assert!(render_area.width > render_area.height);
}

#[test]
fn wide_areas_are_pillarboxed_and_centered() {
    let widget = widget_with_image(64, 64);
    let area = Rect { x: 0, y: 0, width: 100, height: 40 };
    let render_area = widget.calculate_render_area(area);
    assert_eq!(render_area, Rect { x: 10, y: 0, width: 80, height: 40 });
}

#[test]
fn tall_areas_are_letterboxed_and_centered() {
    let widget = widget_with_image(64, 64);
    let area = Rect { x: 4, y: 2, width: 80, height: 60 };
    let render_area = widget.calculate_render_area(area);
    assert_eq!(render_area, Rect { x: 4, y: 12, width: 80, height: 40 });
}

#[test]
fn odd_leftovers_favor_the_top_left() {
    let widget = widget_with_image(64, 64);
    // Width 81 leaves one spare column: it goes to the right, so x stays 0.
    let area = Rect { x: 0, y: 0, width: 81, height: 40 };
    let render_area = widget.calculate_render_area(area);
    assert_eq!(render_area.x, 0);
    assert_eq!(render_area.width, 80);
}

#[test]
fn aspect_ratio_doubles_the_width() {
    let widget = widget_with_image(64, 32);
    assert_eq!(widget.aspect_ratio(), (128, 32));
}

#[test]
fn cell_to_ndc_maps_the_area_onto_the_unit_square() {
    let widget = widget_with_image(64, 64);
    let area = Rect { x: 0, y: 0, width: 80, height: 40 };
    // The center cell maps to the origin, at the fixed mid-depth.
    let ndc = widget.relative_cell_to_ndc(area, CellCoords { x: 40, y: 20 });
    assert_eq!((ndc.x, ndc.y, ndc.z), (0, 0, 32768));
    // The top-left corner maps to (-1, 1).
    let ndc = widget.relative_cell_to_ndc(area, CellCoords { x: 0, y: 0 });
    assert_eq!((ndc.x, ndc.y), (-65536, 65536));
}

#[test]
fn ndc_round_trip_stays_within_one_cell() {
    let widget = widget_with_image(64, 64);
    let area = Rect { x: 0, y: 0, width: 80, height: 40 };
    for (x, y) in [(0, 0), (1, 1), (40, 20), (79, 39), (13, 37), (79, 0)] {
        let cell = CellCoords { x, y };
        let ndc = widget.relative_cell_to_ndc(area, cell);
        let back = widget.ndc_to_relative_cell(area, ndc);
        assert!((back.x - cell.x).abs() <= 1, "x: {} -> {}", cell.x, back.x);
        assert!((back.y - cell.y).abs() <= 1, "y: {} -> {}", cell.y, back.y);
    }
}

#[test]
fn ndc_to_cell_offsets_into_the_full_area() {
    let widget = widget_with_image(64, 64);
    // The render sub-area of this 100x40 area starts at x = 10.
    let area = Rect { x: 0, y: 0, width: 100, height: 40 };
    let cell = widget.ndc_to_cell(area, ratatui_camera::Ndc { x: -65536, y: 65536, z: 32768 });
    assert_eq!((cell.x, cell.y), (10, 0));
}

#[test]
fn autoresize_dimensions_double_and_quadruple() {
    let area = Rect { x: 3, y: 7, width: 10, height: 5 };
    assert_eq!(RatatuiCameraWidget::autoresize_dimensions(area), (20, 20));
    let widget = widget_with_image(4, 4);
    assert!(!widget.needs_resize((20, 20), area));
    assert!(widget.needs_resize((20, 19), area));
    assert!(widget.needs_resize((1, 1), area));
}

#[test]
fn global_cell_round_trip_stays_within_one_cell() {
    let widget = widget_with_image(64, 64);
    // The render sub-area of this area sits at (14, 2), 80 cells wide.
    let area = Rect { x: 4, y: 2, width: 100, height: 40 };
    let render_area = widget.calculate_render_area(area);
    assert_eq!(render_area, Rect { x: 14, y: 2, width: 80, height: 40 });
    for (x, y) in [(14, 2), (50, 22), (93, 41)] {
        let cell = CellCoords { x, y };
        let ndc = widget.cell_to_ndc(area, cell);
        let back = widget.ndc_to_cell(render_area, ndc);
        assert!((back.x - cell.x).abs() <= 1, "x: {} -> {}", cell.x, back.x);
        assert!((back.y - cell.y).abs() <= 1, "y: {} -> {}", cell.y, back.y);
    }
}

#[test]
fn ndc_below_the_view_truncates_toward_zero() {
    // A 64x64 image in a 3x2 area renders into all 3x2 cells. Out-of-view
    // coordinates truncate toward zero like an integer cast: -1.5 in NDC x
    // lands at relative cell 0, not -1.
    let widget = widget_with_image(64, 64);
    let area = Rect { x: 0, y: 0, width: 3, height: 2 };
    assert_eq!(widget.calculate_render_area(area), area);
    let cell = widget.ndc_to_relative_cell(
        area,
        ratatui_camera::Ndc { x: -98304, y: 98304, z: 32768 },
    );
    assert_eq!((cell.x, cell.y), (0, 0));
    // The top-left view corner still maps to the relative origin.
    let corner = widget.ndc_to_relative_cell(
        area,
        ratatui_camera::Ndc { x: -65536, y: 65536, z: 32768 },
    );
    assert_eq!((corner.x, corner.y), (0, 0));
    // Coordinates past the other side keep truncating toward zero.
    let beyond = widget.ndc_to_relative_cell(
        area,
        ratatui_camera::Ndc { x: 131072, y: -131072, z: 32768 },
    );
    assert_eq!((beyond.x, beyond.y), (4, 3));
}

use ratatui_camera::{
    replace_detected_edges, Color, EdgeCharacters, Gradient, RatatuiCameraEdgeDetection,
};

fn directional() -> RatatuiCameraEdgeDetection {
    RatatuiCameraEdgeDetection {
        edge_characters: EdgeCharacters::Directional {
            vertical: '|',
            horizontal: '-',
            forward_diagonal: '/',
            backward_diagonal: '\\',
        },
        edge_color: None,
    }
}

fn single() -> RatatuiCameraEdgeDetection {
    RatatuiCameraEdgeDetection {
        edge_characters: EdgeCharacters::Single('+'),
        edge_color: None,
    }
}

fn gradient(v: u8, h: u8, f: u8, b: u8) -> Gradient {
    Gradient { vertical: v, horizontal: h, forward_diagonal: f, backward_diagonal: b }
}

#[test]
fn zero_gradient_passes_through_in_both_modes() {
    let fg = Some(Color::Rgb(1, 2, 3));
    assert_eq!(
        replace_detected_edges('x', fg, gradient(0, 0, 0, 0), &directional()),
        ('x', fg)
    );
    assert_eq!(replace_detected_edges('x', fg, gradient(0, 0, 0, 0), &single()), ('x', fg));
}

#[test]
fn directional_picks_the_strict_maximum() {
    let fg = Some(Color::Rgb(9, 9, 9));
    assert_eq!(replace_detected_edges('x', fg, gradient(5, 3, 3, 3), &directional()).0, '|');
    assert_eq!(replace_detected_edges('x', fg, gradient(3, 5, 3, 3), &directional()).0, '-');
    assert_eq!(replace_detected_edges('x', fg, gradient(3, 3, 5, 3), &directional()).0, '/');
    assert_eq!(replace_detected_edges('x', fg, gradient(3, 3, 3, 5), &directional()).0, '\\');
}

#[test]
fn directional_ties_resolve_to_the_vertical_glyph() {
    let fg = Some(Color::Rgb(9, 9, 9));
    assert_eq!(replace_detected_edges('x', fg, gradient(3, 3, 3, 3), &directional()).0, '|');
}

#[test]
fn edge_color_overrides_the_cell_color() {
    let mut config = single();
    config.edge_color = Some(Color::Cyan);
    let fg = Some(Color::Rgb(9, 9, 9));
    assert_eq!(
        replace_detected_edges('x', fg, gradient(0, 1, 0, 0), &config),
        ('+', Some(Color::Cyan))
    );
    // Without a configured edge color the cell keeps its own.
    assert_eq!(replace_detected_edges('x', fg, gradient(0, 1, 0, 0), &single()), ('+', fg));
}

#[test]
fn single_mode_fires_on_any_positive_channel() {
    let fg = Some(Color::Rgb(9, 9, 9));
    assert_eq!(replace_detected_edges('x', fg, gradient(0, 0, 0, 1), &single()).0, '+');
    assert_eq!(replace_detected_edges('x', fg, gradient(1, 0, 0, 0), &single()).0, '+');
}

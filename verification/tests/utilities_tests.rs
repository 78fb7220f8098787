use ratatui_camera::{
    average_in_rgb, average_in_rgba, colors_for_color_choices, coords_from_index, Color,
    ColorChoice, ColorImage, Rgb, Rgba,
};

#[test]
fn averages_truncate_per_channel() {
    let a = Rgb { r: 3, g: 255, b: 0 };
    let b = Rgb { r: 4, g: 255, b: 1 };
    assert_eq!(average_in_rgb(a, b), Rgb { r: 3, g: 255, b: 0 });

    let a = Rgba { r: 10, g: 0, b: 200, a: 255 };
    let b = Rgba { r: 11, g: 1, b: 100, a: 0 };
    assert_eq!(average_in_rgba(a, b), Rgba { r: 10, g: 0, b: 150, a: 127 });
}

#[test]
fn coords_walk_the_grid_row_major() {
    let image = ColorImage::new(4, 2, vec![0u8; 32]);
    assert_eq!(coords_from_index(0, &image), (0, 0));
    assert_eq!(coords_from_index(3, &image), (3, 0));
    assert_eq!(coords_from_index(5, &image), (1, 1));
}

#[test]
fn color_choices_override_or_scale_the_foreground() {
    let fg = Some(Color::Rgb(100, 50, 255));
    let bg = Some(Color::Rgb(1, 2, 3));

    // No choices: both pass through.
    assert_eq!(colors_for_color_choices(fg, bg, &None, &None), (fg, bg));

    // A fixed color override.
    let choice = Some(ColorChoice::Color(Color::Cyan));
    assert_eq!(colors_for_color_choices(fg, bg, &choice, &None), (Some(Color::Cyan), bg));

    // Scaling by one half, truncating: (100, 50, 255) -> (50, 25, 127).
    let choice = Some(ColorChoice::Scale(32768));
    assert_eq!(
        colors_for_color_choices(fg, bg, &None, &choice),
        (fg, Some(Color::Rgb(50, 25, 127)))
    );

    // The background choice also reads the calculated foreground.
    assert_eq!(
        colors_for_color_choices(None, bg, &None, &choice),
        (None, None),
    );

    // Scaling saturates at the channel maximum.
    let choice = Some(ColorChoice::Scale(3 * 65536));
    assert_eq!(
        colors_for_color_choices(fg, bg, &choice, &None),
        (Some(Color::Rgb(255, 150, 255)), bg)
    );

    // A non-RGB foreground cannot be scaled and yields no color.
    let named = Some(Color::Cyan);
    let choice = Some(ColorChoice::Scale(32768));
    assert_eq!(colors_for_color_choices(named, bg, &choice, &None), (None, bg));
}

use ratatui_camera::{DepthImage, RatatuiCameraDepthBuffer, Rect};

#[test]
fn new_buffer_starts_at_far_plane() {
    let buffer = RatatuiCameraDepthBuffer::new(Rect { x: 0, y: 0, width: 4, height: 3 });
    for x in 0..4 {
        for y in 0..6 {
            assert_eq!(buffer.get(x, y), Some(0));
        }
    }
    assert_eq!(buffer.get(4, 0), None);
    assert_eq!(buffer.get(0, 6), None);
}

#[test]
fn compare_and_update_ties_favor_the_new_write() {
    let mut buffer = RatatuiCameraDepthBuffer::new(Rect { x: 0, y: 0, width: 4, height: 3 });
    // 1.0 in fixed point against the initial far plane: draw.
    assert_eq!(buffer.compare_and_update(1, 2, 65536), Some(true));
    assert_eq!(buffer.get(1, 2), Some(65536));
    // A farther depth afterward is occluded and leaves the record alone.
    assert_eq!(buffer.compare_and_update(1, 2, 32768), Some(false));
    assert_eq!(buffer.get(1, 2), Some(65536));
    // An equal depth draws again: ties favor the later write.
    assert_eq!(buffer.compare_and_update(1, 2, 65536), Some(true));
    assert_eq!(buffer.get(1, 2), Some(65536));
    // Out-of-bounds coordinates yield nothing.
    assert_eq!(buffer.compare_and_update(4, 0, 65536), None);
}

#[test]
fn set_returns_the_previous_depth() {
    let mut buffer = RatatuiCameraDepthBuffer::new(Rect { x: 0, y: 0, width: 2, height: 1 });
    assert_eq!(buffer.set(0, 1, 1234), Some(0));
    assert_eq!(buffer.set(0, 1, 99), Some(1234));
    assert_eq!(buffer.get(0, 1), Some(99));
    assert_eq!(buffer.set(2, 0, 7), None);
}

fn depth_image_from_values(width: u32, height: u32, values: &[u32]) -> DepthImage {
    let mut data = Vec::new();
    for value in values {
        data.extend_from_slice(&value.to_le_bytes());
    }
    DepthImage::new(width, height, data)
}

#[test]
fn compare_and_update_from_image_samples_the_raster() {
    let image = depth_image_from_values(2, 2, &[65536, 100, 0, 50000]);
    let mut buffer = RatatuiCameraDepthBuffer::new(Rect { x: 0, y: 0, width: 2, height: 1 });

    assert_eq!(buffer.compare_and_update_from_image(0, 0, &image), Some(true));
    assert_eq!(buffer.get(0, 0), Some(65536));
    // The same sample again still passes (ties draw).
    assert_eq!(buffer.compare_and_update_from_image(0, 0, &image), Some(true));
    // Position (0, 1) has its own record, still 0, so the 0 sample there ties.
    assert_eq!(buffer.compare_and_update_from_image(0, 1, &image), Some(true));
    assert_eq!(buffer.get(0, 1), Some(0));
    // Outside the image: nothing.
    assert_eq!(buffer.compare_and_update_from_image(2, 0, &image), None);
    assert_eq!(buffer.compare_and_update_from_image(0, 2, &image), None);
}

#[test]
fn later_layers_win_equal_depth_fights() {
    // Two layers drawing at the same depth: the later call's write stands,
    // and a strictly farther layer afterward is occluded.
    let mut buffer = RatatuiCameraDepthBuffer::new(Rect { x: 0, y: 0, width: 1, height: 1 });
    assert_eq!(buffer.compare_and_update(0, 0, 40000), Some(true));
    assert_eq!(buffer.compare_and_update(0, 0, 40000), Some(true));
    assert_eq!(buffer.compare_and_update(0, 0, 39999), Some(false));
}

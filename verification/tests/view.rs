use g2d::dimension::Dimension;
use g2d::pixels_mut::PixelsMut;
use g2d::rgba::Rgba;

fn white_view(width: u32, height: u32, stride: usize) -> PixelsMut {
    PixelsMut::new(
        vec![255; stride * height as usize],
        stride,
        Dimension::new(width, height),
    )
    .unwrap()
}

#[test]
fn view_new_checks_the_buffer() {
    let size = Dimension::new(2, 2);
    assert!(PixelsMut::new(vec![0; 512], 256, size).is_some());
    assert!(PixelsMut::new(vec![0; 16], 8, size).is_some());
    assert!(PixelsMut::new(vec![0; 511], 256, size).is_none());
    assert!(PixelsMut::new(vec![0; 513], 256, size).is_none());
    assert!(PixelsMut::new(vec![0; 14], 7, size).is_none());
    assert!(PixelsMut::new(vec![], 256, Dimension::new(2, 0)).is_none());
    assert!(PixelsMut::new(vec![0; 512], 256, Dimension::new(0, 2)).is_none());
    assert!(PixelsMut::new(vec![], 0, Dimension::new(0, 0)).is_none());
}

#[test]
fn view_knows_its_shape() {
    let view = white_view(3, 2, 256);
    assert_eq!(view.size(), Dimension::new(3, 2));
    assert_eq!(view.stride(), 256);
    assert_eq!(view.len(), 6);
}

#[test]
fn view_get_color_reads_the_pixel() {
    let mut bytes = vec![0u8; 512];
    bytes[4..8].copy_from_slice(&[1, 2, 3, 4]);
    bytes[256..260].copy_from_slice(&[5, 6, 7, 8]);
    bytes[8..12].copy_from_slice(&[9, 9, 9, 9]);
    let view = PixelsMut::new(bytes, 256, Dimension::new(2, 2)).unwrap();
    assert_eq!(view.get_color(0, 0), Some(Rgba::new(0, 0, 0, 0)));
    assert_eq!(view.get_color(1, 0), Some(Rgba::new(1, 2, 3, 4)));
    assert_eq!(view.get_color(0, 1), Some(Rgba::new(5, 6, 7, 8)));
    assert_eq!(view.get_color(1, 1), Some(Rgba::new(0, 0, 0, 0)));
}

#[test]
fn view_get_color_rejects_the_edge() {
    let view = white_view(2, 3, 256);
    assert_eq!(view.get_color(2, 0), None);
    assert_eq!(view.get_color(0, 3), None);
    assert_eq!(view.get_color(2, 3), None);
    assert_eq!(view.get_color(u32::MAX, 0), None);
    assert_eq!(view.get_color(0, u32::MAX), None);
    assert_eq!(view.get_color(1, 2), Some(Rgba::white()));
}

#[test]
fn view_set_color_rejects_the_edge() {
    let mut view = white_view(2, 3, 256);
    assert_eq!(view.set_color(2, 0, Rgba::black()), None);
    assert_eq!(view.set_color(0, 3, Rgba::black()), None);
    assert_eq!(view.set_color(2, 3, Rgba::black()), None);
    assert_eq!(view.into_bytes(), vec![255; 768]);
}

#[test]
fn view_set_color_returns_the_previous_color() {
    let mut view = white_view(2, 2, 256);
    assert_eq!(view.set_color(1, 1, Rgba::new(1, 2, 3, 4)), Some(Rgba::white()));
    assert_eq!(
        view.set_color(1, 1, Rgba::black()),
        Some(Rgba::new(1, 2, 3, 4))
    );
    assert_eq!(view.get_color(1, 1), Some(Rgba::black()));
}

#[test]
fn view_set_color_changes_one_pixel_only() {
    let mut view = white_view(2, 2, 256);
    view.set_color(1, 0, Rgba::new(1, 2, 3, 4));
    assert_eq!(view.get_color(0, 0), Some(Rgba::white()));
    assert_eq!(view.get_color(1, 0), Some(Rgba::new(1, 2, 3, 4)));
    assert_eq!(view.get_color(0, 1), Some(Rgba::white()));
    assert_eq!(view.get_color(1, 1), Some(Rgba::white()));
    let bytes = view.into_bytes();
    let mut expected = vec![255u8; 512];
    expected[4..8].copy_from_slice(&[1, 2, 3, 4]);
    assert_eq!(bytes, expected);
}

#[test]
fn view_row_hides_the_padding() {
    let mut bytes = vec![7u8; 512];
    bytes[0..8].copy_from_slice(&[1, 2, 3, 4, 5, 6, 7, 8]);
    bytes[256..264].copy_from_slice(&[9, 10, 11, 12, 13, 14, 15, 16]);
    let view = PixelsMut::new(bytes, 256, Dimension::new(2, 2)).unwrap();
    assert_eq!(view.row(0), Some(&[1u8, 2, 3, 4, 5, 6, 7, 8][..]));
    assert_eq!(view.row(1), Some(&[9u8, 10, 11, 12, 13, 14, 15, 16][..]));
    assert_eq!(view.row(2), None);
}

#[test]
fn view_write_row_replaces_the_image_bytes() {
    let mut view = PixelsMut::new(vec![7u8; 512], 256, Dimension::new(2, 2)).unwrap();
    assert!(view.write_row(1, &[1, 2, 3, 4, 5, 6, 7, 8]));
    let mut expected = vec![7u8; 512];
    expected[256..264].copy_from_slice(&[1, 2, 3, 4, 5, 6, 7, 8]);
    assert_eq!(view.row(0), Some(&[7u8; 8][..]));
    assert_eq!(view.row(1), Some(&[1u8, 2, 3, 4, 5, 6, 7, 8][..]));
    assert_eq!(view.into_bytes(), expected);
}

#[test]
fn view_write_row_refuses_bad_rows() {
    let mut view = PixelsMut::new(vec![7u8; 512], 256, Dimension::new(2, 2)).unwrap();
    assert!(!view.write_row(2, &[1, 2, 3, 4, 5, 6, 7, 8]));
    assert!(!view.write_row(0, &[1, 2, 3, 4, 5, 6, 7]));
    assert!(!view.write_row(0, &[1, 2, 3, 4, 5, 6, 7, 8, 9]));
    assert!(!view.write_row(0, &[]));
    assert_eq!(view.into_bytes(), vec![7u8; 512]);
}

#[test]
fn view_pixel_at_walks_in_row_major_order() {
    let mut view = white_view(3, 2, 256);
    view.set_color(1, 0, Rgba::new(1, 0, 0, 0));
    view.set_color(0, 1, Rgba::new(3, 0, 0, 0));
    view.set_color(2, 1, Rgba::new(5, 0, 0, 0));
    assert_eq!(view.pixel_at(0), Some((0, 0, Rgba::white())));
    assert_eq!(view.pixel_at(1), Some((1, 0, Rgba::new(1, 0, 0, 0))));
    assert_eq!(view.pixel_at(2), Some((2, 0, Rgba::white())));
    assert_eq!(view.pixel_at(3), Some((0, 1, Rgba::new(3, 0, 0, 0))));
    assert_eq!(view.pixel_at(4), Some((1, 1, Rgba::white())));
    assert_eq!(view.pixel_at(5), Some((2, 1, Rgba::new(5, 0, 0, 0))));
    assert_eq!(view.pixel_at(6), None);
    assert_eq!(view.pixel_at(u64::MAX), None);
}

#[test]
fn view_to_pixels_strips_the_padding() {
    let mut view = PixelsMut::new(vec![7u8; 512], 256, Dimension::new(2, 2)).unwrap();
    view.set_color(0, 0, Rgba::new(1, 2, 3, 4));
    view.set_color(1, 1, Rgba::new(5, 6, 7, 8));
    let pixels = view.to_pixels();
    assert_eq!(pixels.size(), Dimension::new(2, 2));
    assert_eq!(
        pixels.into_vec(),
        vec![1, 2, 3, 4, 7, 7, 7, 7, 7, 7, 7, 7, 5, 6, 7, 8]
    );
}

use beautyshot::region::{clamp_region, Region};
use beautyshot::screenshot::{capture_fullscreen, capture_region, Frame};

fn patterned_frame(width: u32, height: u32) -> Frame {
    let mut pixels = Vec::with_capacity((width * height * 4) as usize);
    for y in 0..height {
        for x in 0..width {
            for c in 0..4u32 {
                pixels.push(((x * 7 + y * 13 + c * 29) % 251) as u8);
            }
        }
    }
    Frame { width, height, pixels }
}

fn decode_rgba(png: &[u8]) -> (u32, u32, Vec<u8>) {
    let rgba = image::load_from_memory(png).unwrap().to_rgba8();
    let (w, h) = (rgba.width(), rgba.height());
    (w, h, rgba.into_raw())
}

#[test]
fn clamp_region_follows_source_arithmetic() {
    assert_eq!(
        clamp_region(-10, -10, 100, 100, 1920, 1080),
        Some(Region { x: 0, y: 0, width: 100, height: 100 })
    );
    assert_eq!(
        clamp_region(1900, 1000, 500, 500, 1920, 1080),
        Some(Region { x: 1900, y: 1000, width: 20, height: 80 })
    );
    assert_eq!(clamp_region(0, 0, 0, 100, 1920, 1080), None);
    assert_eq!(clamp_region(2000, 0, 100, 100, 1920, 1080), None);
    assert_eq!(
        clamp_region(5, 5, 1000, 1000, 10, 10),
        Some(Region { x: 5, y: 5, width: 5, height: 5 })
    );
}

#[test]
fn zero_dimension_frame_fails_encoding() {
    let frame = Frame { width: 0, height: 0, pixels: Vec::new() };
    assert!(capture_fullscreen(&frame).is_err());
}

#[test]
fn fullscreen_round_trips_through_png() {
    let frame = patterned_frame(16, 9);
    let png = capture_fullscreen(&frame).unwrap();
    assert_ne!(png, frame.pixels, "encoding must actually produce PNG bytes");
    assert_eq!(&png[..8], &[0x89, b'P', b'N', b'G', b'\r', b'\n', 0x1a, b'\n']);
    let (w, h, raw) = decode_rgba(&png);
    assert_eq!((w, h), (16, 9));
    assert_eq!(raw, frame.pixels);
}

#[test]
fn negative_origin_clamps_to_top_left_corner() {
    // A 100x100 request at (-10, -10) on a 1920x1080 monitor: the start is
    // clamped to (0, 0) and the extents are left untouched, so the result
    // is the 100x100 crop at the top-left corner.
    let frame = patterned_frame(1920, 1080);
    let png = capture_region(&frame, -10, -10, 100, 100).unwrap();
    let (w, h, raw) = decode_rgba(&png);
    assert_eq!((w, h), (100, 100));
    let reference = capture_region(&frame, 0, 0, 100, 100).unwrap();
    let (_, _, expected) = decode_rgba(&reference);
    assert_eq!(raw, expected);
}

#[test]
fn zero_width_region_is_invalid() {
    let frame = patterned_frame(1920, 1080);
    let err = capture_region(&frame, 0, 0, 0, 100).unwrap_err();
    assert_eq!(err.message(), "Invalid region dimensions");
}

#[test]
fn zero_height_region_is_invalid() {
    let frame = patterned_frame(32, 32);
    let err = capture_region(&frame, 0, 0, 10, 0).unwrap_err();
    assert_eq!(err.message(), "Invalid region dimensions");
}

#[test]
fn region_outside_image_is_invalid() {
    let frame = patterned_frame(1920, 1080);
    let err = capture_region(&frame, 2000, 0, 100, 100).unwrap_err();
    assert_eq!(err.message(), "Invalid region dimensions");
    let err = capture_region(&frame, 0, 1080, 100, 100).unwrap_err();
    assert_eq!(err.message(), "Invalid region dimensions");
}

#[test]
fn partially_outside_region_is_clamped() {
    let frame = patterned_frame(1920, 1080);
    let png = capture_region(&frame, 1900, 1000, 100, 100).unwrap();
    let (w, h, _) = decode_rgba(&png);
    assert_eq!((w, h), (20, 80));
}

#[test]
fn crop_copies_exact_pixels() {
    let frame = patterned_frame(4, 4);
    let png = capture_region(&frame, 1, 2, 2, 2).unwrap();
    let (w, h, raw) = decode_rgba(&png);
    assert_eq!((w, h), (2, 2));
    let mut expected = Vec::new();
    for y in 2..4u32 {
        for x in 1..3u32 {
            for c in 0..4u32 {
                expected.push(((x * 7 + y * 13 + c * 29) % 251) as u8);
            }
        }
    }
    assert_eq!(raw, expected);
}

#[test]
fn oversized_extents_clamp_to_whole_image() {
    let frame = patterned_frame(8, 6);
    let png = capture_region(&frame, 0, 0, 1000, 1000).unwrap();
    let (w, h, raw) = decode_rgba(&png);
    assert_eq!((w, h), (8, 6));
    assert_eq!(raw, frame.pixels);
}

//! The thumbnail policy and the PNG payload encoding.

use pdf_vtab::model::Bitmap;
use pdf_vtab::render::{encode_payload_png, thumbnail_dimensions};

fn checker(width: u32, height: u32) -> Bitmap {
    let mut rgba = Vec::new();
    for y in 0..height {
        for x in 0..width {
            let on = (x + y) % 2 == 0;
            rgba.extend_from_slice(if on { &[0, 0, 0, 255] } else { &[255, 255, 255, 255] });
        }
    }
    Bitmap { width, height, rgba }
}

#[test]
fn longest_dimension_becomes_exactly_256() {
    // A landscape page twice as wide as tall, a portrait one, and a square.
    assert_eq!(thumbnail_dimensions(612_000, 306_000), (256, 128));
    assert_eq!(thumbnail_dimensions(306_000, 612_000), (128, 256));
    assert_eq!(thumbnail_dimensions(500_000, 500_000), (256, 256));
    // The standard letter page.
    assert_eq!(thumbnail_dimensions(612_000, 792_000), (197, 256));
}

#[test]
fn extreme_aspect_ratio_never_collapses_to_zero() {
    assert_eq!(thumbnail_dimensions(36_028_797_018_963_967, 1), (256, 1));
    assert_eq!(thumbnail_dimensions(1, 36_028_797_018_963_967), (1, 256));
}

#[test]
fn thumbnail_called_twice_is_byte_identical() {
    let bmp = checker(64, 48);
    let first = encode_payload_png(&bmp).expect("well-formed render encodes");
    let second = encode_payload_png(&bmp).expect("well-formed render encodes");
    assert!(!first.is_empty());
    assert_eq!(first, second);
}

#[test]
fn thumbnail_payload_is_a_valid_png_of_the_rendered_pixels() {
    let bmp = checker(16, 9);
    let png = encode_payload_png(&bmp).expect("well-formed render encodes");
    // The payload is a PNG stream, not the raw buffer handed back.
    assert_ne!(png, bmp.rgba);
    assert!(png.starts_with(&[137, 80, 78, 71]));
    let decoded = image::load_from_memory(&png).expect("valid image").to_rgba8();
    assert_eq!(decoded.dimensions(), (16, 9));
    assert_eq!(decoded.as_raw().as_slice(), bmp.rgba.as_slice());
}

use std::io::Cursor;

use magnidraw::{SpriteError, SpriteImage, texture_copy_layout};

fn png_bytes(width: u32, height: u32) -> Vec<u8> {
    let img: image::RgbaImage = image::ImageBuffer::from_fn(width, height, |x, y| {
        image::Rgba([x as u8, y as u8, 7, 255])
    });
    let mut out = Cursor::new(Vec::new());
    img.write_to(&mut out, image::ImageFormat::Png).unwrap();
    out.into_inner()
}

#[test]
fn decode_png_gives_pixels_and_layout() {
    let img = SpriteImage::decode(&png_bytes(3, 2)).unwrap();
    assert_eq!(img.width, 3);
    assert_eq!(img.height, 2);
    assert_eq!(img.bytes_per_row, 12);
    assert_eq!(img.rgba.len(), 24);
    // Pixel (2, 1) starts at byte 4 * (1 * 3 + 2).
    assert_eq!(&img.rgba[20..24], &[2, 1, 7, 255]);
}

#[test]
fn decode_rejects_garbage() {
    assert!(matches!(SpriteImage::decode(&[1, 2, 3, 4]), Err(SpriteError::InvalidImage)));
    assert!(matches!(SpriteImage::decode(&[]), Err(SpriteError::InvalidImage)));
}

#[test]
fn from_rgba8_keeps_pixels_and_rejects_too_wide_rows() {
    let img = SpriteImage::from_rgba8(2, 1, vec![1, 2, 3, 4, 5, 6, 7, 8]).unwrap();
    assert_eq!((img.width, img.height, img.bytes_per_row), (2, 1, 8));
    assert_eq!(img.rgba, vec![1, 2, 3, 4, 5, 6, 7, 8]);
    assert!(matches!(SpriteImage::from_rgba8(u32::MAX / 4 + 1, 1, Vec::new()), Err(SpriteError::TooWide)));
    assert!(SpriteImage::from_rgba8(u32::MAX / 4, 0, Vec::new()).is_ok());
}

#[test]
fn texture_layout_is_four_bytes_per_pixel() {
    assert_eq!(texture_copy_layout(64, 32), (256, 32));
    assert_eq!(texture_copy_layout(0, 5), (0, 5));
}

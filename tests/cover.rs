use music_core::cover::{normalize_cover, COVER_SIDE};
use music_core::model::LibraryError;

fn encoded(width: u32, height: u32, format: image::ImageFormat) -> Vec<u8> {
    let img = image::DynamicImage::ImageRgb8(image::RgbImage::from_pixel(
        width,
        height,
        image::Rgb([200, 30, 90]),
    ));
    let mut out = std::io::Cursor::new(Vec::new());
    img.write_to(&mut out, format).unwrap();
    out.into_inner()
}

fn png_bytes(width: u32, height: u32) -> Vec<u8> {
    encoded(width, height, image::ImageFormat::Png)
}

#[test]
fn cover_becomes_square_webp() {
    let out = normalize_cover(&png_bytes(64, 20)).unwrap();
    assert_eq!(&out[0..4], b"RIFF");
    assert_eq!(&out[8..12], b"WEBP");
    let decoded = image::load_from_memory(&out).unwrap();
    assert_eq!(decoded.width(), 500);
    assert_eq!(decoded.height(), 500);
    assert_eq!(COVER_SIDE, 500);
}

#[test]
fn large_cover_is_scaled_down() {
    let out = normalize_cover(&png_bytes(900, 1200)).unwrap();
    let decoded = image::load_from_memory(&out).unwrap();
    assert_eq!((decoded.width(), decoded.height()), (500, 500));
}

#[test]
fn garbage_cover_fails_to_decode() {
    assert_eq!(normalize_cover(b"not an image at all"), Err(LibraryError::DecodeFailed));
    assert_eq!(normalize_cover(&[]), Err(LibraryError::DecodeFailed));
}

#[test]
fn cover_of_other_formats_is_normalized() {
    for format in [image::ImageFormat::Bmp, image::ImageFormat::Tiff, image::ImageFormat::Jpeg] {
        let out = normalize_cover(&encoded(30, 70, format)).unwrap();
        let decoded = image::load_from_memory(&out).unwrap();
        assert_eq!((decoded.width(), decoded.height()), (500, 500));
    }
}

#[test]
fn truncated_cover_fails_to_decode() {
    let png = png_bytes(10, 10);
    assert_eq!(normalize_cover(&png[..20]), Err(LibraryError::DecodeFailed));
}

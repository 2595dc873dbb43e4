//! Normalization of user-supplied cover images into square WebP thumbnails.
//! A decoded image is held as plain values: its width, its height and its
//! pixels as RGBA bytes, row by row.

use vstd::prelude::*;
use crate::model::LibraryError;

verus! {

/// The side, in pixels, of every stored cover image.
pub const COVER_SIDE: u32 = 500;

#[verifier::external_type_specification]
#[verifier::external_body]
pub struct ExImageFormat(image::ImageFormat);

/// The format that the codec's built-in table of magic bytes gives `bytes`, if any.
pub uninterp spec fn guessed_format(bytes: Seq<u8>) -> Option<image::ImageFormat>;

/// The width, height and RGBA pixels that the codec's built-in decoder for
/// `format` reads from `bytes`, if it reads them.
pub uninterp spec fn decoded_rgba(bytes: Seq<u8>, format: image::ImageFormat) -> Option<(u32, u32, Seq<u8>)>;

/// The RGBA pixels of a `width` by `height` image resampled with the Lanczos
/// filter of three lobes to `new_width` by `new_height`.
pub uninterp spec fn lanczos_resized(
    pixels: Seq<u8>,
    width: u32,
    height: u32,
    new_width: u32,
    new_height: u32,
) -> Seq<u8>;

/// The lossless WebP file of a `width` by `height` image of RGBA pixels.
pub uninterp spec fn webp_lossless(pixels: Seq<u8>, width: u32, height: u32) -> Seq<u8>;

/// Relies on image::guess_format, which looks the leading bytes up in a
/// fixed table of signatures.
#[verifier::external_body]
fn guess_format(bytes: &[u8]) -> (r: Option<image::ImageFormat>)
    ensures
        r == guessed_format(bytes@),
{
    image::guess_format(bytes).ok()
}

/// Relies on image::load_from_memory_with_format, which decodes with the
/// built-in decoder of the given format; the image is then converted to RGBA
/// bytes, four for each pixel.
#[verifier::external_body]
fn decode_rgba(bytes: &[u8], format: image::ImageFormat) -> (r: Option<(u32, u32, Vec<u8>)>)
    ensures
        match r {
            Some((w, h, px)) => decoded_rgba(bytes@, format) == Some((w, h, px@))
                && px@.len() == 4 * w * h,
            None => decoded_rgba(bytes@, format) is None,
        },
{
    match image::load_from_memory_with_format(bytes, format) {
        Ok(img) => {
            let buf = img.to_rgba8();
            Some((buf.width(), buf.height(), buf.into_raw()))
        },
        Err(_) => None,
    }
}

/// Relies on image::imageops::resize with FilterType::Lanczos3, which makes
/// an image of exactly `new_width` by `new_height`, whatever the aspect ratio.
#[verifier::external_body]
fn resize_rgba(pixels: Vec<u8>, width: u32, height: u32, new_width: u32, new_height: u32) -> (r: Vec<u8>)
    requires
        pixels@.len() == 4 * width * height,
    ensures
        r@ == lanczos_resized(pixels@, width, height, new_width, new_height),
        r@.len() == 4 * new_width * new_height,
{
    let buf = image::RgbaImage::from_raw(width, height, pixels).unwrap();
    image::imageops::resize(&buf, new_width, new_height, image::imageops::FilterType::Lanczos3).into_raw()
}

/// Relies on image::codecs::webp::WebPEncoder::new_lossless and its `encode`,
/// writing into memory: it refuses only a side of 0 or above 16384.
#[verifier::external_body]
fn encode_webp(pixels: &Vec<u8>, width: u32, height: u32) -> (r: Option<Vec<u8>>)
    requires
        pixels@.len() == 4 * width * height,
    ensures
        r is Some <==> (1 <= width <= 16384 && 1 <= height <= 16384),
        r is Some ==> r->0@ == webp_lossless(pixels@, width, height),
{
    let mut out: Vec<u8> = Vec::new();
    let encoder = image::codecs::webp::WebPEncoder::new_lossless(&mut out);
    match encoder.encode(pixels, width, height, image::ExtendedColorType::Rgba8) {
        Ok(()) => Some(out),
        Err(_) => None,
    }
}

/// The stored cover made from the file `source`: its format is guessed from
/// its leading bytes, it is decoded, resampled to a square of `COVER_SIDE`
/// pixels and encoded as lossless WebP. Nothing when it cannot be decoded.
pub open spec fn cover_of(source: Seq<u8>) -> Option<Seq<u8>> {
    match guessed_format(source) {
        None => None,
        Some(format) => match decoded_rgba(source, format) {
            None => None,
            Some((w, h, px)) => Some(webp_lossless(
                lanczos_resized(px, w, h, COVER_SIDE, COVER_SIDE),
                COVER_SIDE,
                COVER_SIDE,
            )),
        },
    }
}

/// Decodes a cover image of any common format, resamples it to a square of
/// `COVER_SIDE` pixels (the aspect ratio is not kept) and encodes it as WebP.
/// Fails with `DecodeFailed` exactly when the source is no decodable image.
pub fn normalize_cover(source: &[u8]) -> (r: Result<Vec<u8>, LibraryError>)
    ensures
        match cover_of(source@) {
            Some(bytes) => r is Ok && r->Ok_0@ == bytes,
            None => r == Err::<Vec<u8>, LibraryError>(LibraryError::DecodeFailed),
        },
{
    let format = match guess_format(source) {
        Some(format) => format,
        None => return Err(LibraryError::DecodeFailed),
    };
    let (width, height, pixels) = match decode_rgba(source, format) {
        Some(decoded) => decoded,
        None => return Err(LibraryError::DecodeFailed),
    };
    let square = resize_rgba(pixels, width, height, COVER_SIDE, COVER_SIDE);
    match encode_webp(&square, COVER_SIDE, COVER_SIDE) {
        Some(bytes) => Ok(bytes),
        None => Err(LibraryError::EncodeFailed),
    }
}

} // verus!

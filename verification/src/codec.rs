//! The image codec edge: decoding a file into an image plus its metadata
//! blob, and encoding an image back to a file.
//!
//! These are the pipeline's only I/O and are the image crate's work, reached
//! through trusted wrappers. The two raw-buffer conversions let the verified
//! overlay step work on the library's own pixel grid.

use vstd::prelude::*;

use image::ImageDecoder;

use crate::errors::StampError;

verus! {

/// A decoded raster image (outside type, opaque to the library).
#[verifier::external_type_specification]
#[verifier::external_body]
pub struct ExDynamicImage(image::DynamicImage);

/// The dimensions of a decoded image, in pixels.
pub uninterp spec fn image_dims(img: image::DynamicImage) -> (u32, u32);

/// The RGB samples of a decoded image: row-major, three bytes per pixel.
pub uninterp spec fn image_rgb_bytes(img: image::DynamicImage) -> Seq<u8>;

/// Relies on image::ImageReader (open, with_guessed_format, into_decoder),
/// ImageDecoder::exif_metadata and DynamicImage::from_decoder: opens the
/// file, decodes the image, and hands back the raw EXIF blob if one is
/// present. What comes back depends on the disk, so nothing more is assumed
/// of it; `Err(true)` reports a failure to open or read the file,
/// `Err(false)` a failure to decode it.
#[verifier::external_body]
fn decode_image(path: &str) -> (r: Result<(image::DynamicImage, Option<Vec<u8>>), bool>)
{
    let reader = match image::ImageReader::open(path) { Ok(v) => v, Err(_) => return Err(true) };
    let reader = match reader.with_guessed_format() { Ok(v) => v, Err(_) => return Err(true) };
    let mut decoder = match reader.into_decoder() { Ok(v) => v, Err(_) => return Err(false) };
    let exif = match decoder.exif_metadata() { Ok(v) => v, Err(_) => return Err(false) };
    match image::DynamicImage::from_decoder(decoder) {
        Ok(img) => Ok((img, exif)),
        Err(_) => Err(false),
    }
}

/// Loads the image at `path` together with its raw EXIF metadata blob, if
/// one is present.
///
/// A file that cannot be opened or read fails with `Io`; one whose content
/// cannot be identified or decoded as an image fails with
/// `UnrecognizedFormat`.
pub fn load_image(path: &str) -> (r: Result<(image::DynamicImage, Option<Vec<u8>>), StampError>)
    ensures
        r matches Err(e) ==> e == StampError::Io || e == StampError::UnrecognizedFormat,
{
    match decode_image(path) {
        Ok(decoded) => Ok(decoded),
        Err(open_failed) => if open_failed {
            Err(StampError::Io)
        } else {
            Err(StampError::UnrecognizedFormat)
        },
    }
}

/// Relies on image::DynamicImage::save: encodes the image in the format the
/// destination path's extension names and writes it there. Whether the write
/// succeeds depends on the disk, so nothing is assumed of the outcome.
#[verifier::external_body]
fn write_image(img: &image::DynamicImage, path: &str) -> (r: Result<(), ()>)
{
    match img.save(path) {
        Ok(v) => Ok(v),
        Err(_) => Err(()),
    }
}

/// Saves the image to `path`; the encoding format follows the path's
/// extension. A failure to encode or write is an `OutputWrite` error.
pub fn save_image(img: &image::DynamicImage, path: &str) -> (r: Result<(), StampError>)
    ensures
        r matches Err(e) ==> e == StampError::OutputWrite,
{
    match write_image(img, path) {
        Ok(done) => Ok(done),
        Err(_) => Err(StampError::OutputWrite),
    }
}

/// Relies on image::DynamicImage::to_rgb8 with ImageBuffer::dimensions and
/// into_raw: the RGB rendering of an image is a function of the image alone
/// and keeps its dimensions. Nothing is assumed of the buffer's length: an
/// image built over an oversized raw container keeps the whole container, so
/// the caller checks the three-bytes-per-pixel shape itself.
#[verifier::external_body]
pub fn image_to_rgb_raw(img: &image::DynamicImage) -> (r: (u32, u32, Vec<u8>))
    ensures
        (r.0, r.1) == image_dims(*img),
        r.2@ == image_rgb_bytes(*img),
{
    let rgb = img.to_rgb8();
    let (width, height) = rgb.dimensions();
    (width, height, rgb.into_raw())
}

/// Relies on image::RgbImage::from_raw and DynamicImage::ImageRgb8: a buffer
/// of exactly width x height RGB pixels wraps into an image with those
/// dimensions and samples (from_raw accepts a buffer of exactly that size).
#[verifier::external_body]
pub fn rgb_raw_to_image(width: u32, height: u32, data: Vec<u8>) -> (r: image::DynamicImage)
    requires
        data@.len() == 3 * (width as int) * (height as int),
    ensures
        image_dims(r) == (width, height),
        image_rgb_bytes(r) == data@,
{
    match image::RgbImage::from_raw(width, height, data) {
        Some(buffer) => image::DynamicImage::ImageRgb8(buffer),
        None => image::DynamicImage::new_rgb8(width, height),
    }
}

} // verus!

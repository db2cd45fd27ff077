//! The pipeline orchestrator's pure middle: annotate a decoded image with the
//! timestamp its metadata blob carries.
//!
//! The stages run in fixed order — tag scan, field parse, calendar
//! validation, formatting, geometry, overlay draw — and the first failure
//! stops the run with its error kind; nothing is retried and no partial
//! result is produced. The caller performs the decode before and the save
//! after, and must not write any output when a stage has failed.

use vstd::prelude::*;
use vstd::string::StringSliceAdditionalSpecFns;

use crate::calendar::CalendarTimestamp;
use crate::codec::{image_dims, image_rgb_bytes, image_to_rgb_raw, rgb_raw_to_image};
use crate::display::{display_text, format_timestamp, lemma_dec_digits_shape, lemma_display_text_ascii};
use crate::errors::StampError;
use crate::geometry::{calculate_font_size, calculate_text_position, spec_font_size, spec_text_position};
use crate::metadata::{extract_timestamp_from_exif, spec_extract};
use crate::overlay::{draw_timestamp, stroke, text_pixel_on};
use crate::pixel::PixelBuffer;

verus! {

/// Red sample of the stamp colour (orange).
pub const STAMP_RED: u8 = 255;

/// Green sample of the stamp colour (orange).
pub const STAMP_GREEN: u8 = 165;

/// Blue sample of the stamp colour (orange).
pub const STAMP_BLUE: u8 = 0;

/// The RGB sample at `(px, py)` of a row-major byte sequence with `w` pixels
/// per row.
pub open spec fn rgb_at(data: Seq<u8>, w: int, px: int, py: int) -> (u8, u8, u8) {
    (data[3 * (py * w + px)], data[3 * (py * w + px) + 1], data[3 * (py * w + px) + 2])
}

/// The decoded RGB form of an image is a drawable grid: both dimensions are
/// nonzero and the buffer holds exactly three bytes per pixel.
pub open spec fn rgb_grid_wf(dims: (u32, u32), bytes: Seq<u8>) -> bool {
    &&& dims.0 >= 1
    &&& dims.1 >= 1
    &&& bytes.len() == 3 * (dims.0 as int) * (dims.1 as int)
}

/// The sample at `(px, py)` after stamping `text` onto a `w` x `h` image with
/// samples `orig`: the stamp colour on pixels lit by the text at the derived
/// geometry, the original sample everywhere else.
pub open spec fn stamped_pixel(orig: Seq<u8>, w: int, h: int, text: Seq<u8>, px: int, py: int) -> (
    u8,
    u8,
    u8,
) {
    let size = spec_font_size(w, h);
    let pos = spec_text_position(w, h);
    if text_pixel_on(text, pos.0, pos.1, stroke(size), w, h, px, py) {
        (STAMP_RED, STAMP_GREEN, STAMP_BLUE)
    } else {
        rgb_at(orig, w, px, py)
    }
}

/// The output image is the input image with `text` stamped on: same
/// dimensions, same byte count, and every pixel as `stamped_pixel` gives it.
pub open spec fn stamp_applied(
    orig_dims: (u32, u32),
    orig_bytes: Seq<u8>,
    out_dims: (u32, u32),
    out_bytes: Seq<u8>,
    text: Seq<u8>,
) -> bool {
    let w = orig_dims.0 as int;
    let h = orig_dims.1 as int;
    &&& out_dims == orig_dims
    &&& out_bytes.len() == orig_bytes.len()
    &&& forall|px: int, py: int|
        0 <= px < w && 0 <= py < h ==> #[trigger] rgb_at(out_bytes, w, px, py) == stamped_pixel(
            orig_bytes,
            w,
            h,
            text,
            px,
            py,
        )
}

/// Draws `timestamp` near the bottom-right corner of the image, in orange,
/// at the size and anchor the image dimensions give.
///
/// Fails with `Render` exactly when the text is empty, a dimension is zero,
/// or the image's RGB rendering is not a plain three-bytes-per-pixel grid.
/// On success the output is the input with the stamp applied, pixel for
/// pixel. Stamping an already-stamped image draws a second overlay; the draw
/// step makes no idempotence claim.
pub fn add_timestamp_to_image(img: &image::DynamicImage, timestamp: &str) -> (r: Result<
    image::DynamicImage,
    StampError,
>)
    ensures
        r is Ok <==> timestamp@.len() > 0 && rgb_grid_wf(image_dims(*img), image_rgb_bytes(*img)),
        r matches Err(e) ==> e == StampError::Render,
        r matches Ok(out) ==> stamp_applied(
            image_dims(*img),
            image_rgb_bytes(*img),
            image_dims(out),
            image_rgb_bytes(out),
            timestamp.spec_bytes(),
        ),
{
    if timestamp.is_empty() {
        return Err(StampError::Render);
    }
    let (width, height, data) = image_to_rgb_raw(img);
    if width == 0 || height == 0 {
        return Err(StampError::Render);
    }
    proof {
        assert(3 * (width as int) * (height as int) <= 3 * 0xffff_ffff * 0xffff_ffff)
            by (nonlinear_arith)
            requires
                width <= 0xffff_ffffu32,
                height <= 0xffff_ffffu32,
        ;
    }
    if (data.len() as u128) != 3u128 * (width as u128) * (height as u128) {
        return Err(StampError::Render);
    }
    let ghost orig_bytes = data@;
    let mut buf = PixelBuffer { width, height, data };
    let size = calculate_font_size(width, height);
    let (x, y) = calculate_text_position(width, height);
    draw_timestamp(&mut buf, STAMP_RED, STAMP_GREEN, STAMP_BLUE, x, y, size, timestamp);
    proof {
        assert forall|px: int, py: int|
            0 <= px < width as int && 0 <= py < height as int implies #[trigger] rgb_at(
            buf.data@,
            width as int,
            px,
            py,
        ) == stamped_pixel(
            orig_bytes,
            width as int,
            height as int,
            timestamp.spec_bytes(),
            px,
            py,
        ) by {
            assert(buf.spec_pixel(px, py) == rgb_at(buf.data@, width as int, px, py));
        }
    }
    let out = rgb_raw_to_image(buf.width, buf.height, buf.data);
    Ok(out)
}

/// Runs the pure middle of the pipeline on an already-decoded image and its
/// raw metadata blob: extract the timestamp, format it, stamp the image.
///
/// A failing extraction stage surfaces its own error kind unchanged; with a
/// valid timestamp, stamping fails (`Render`) exactly when the image's RGB
/// rendering is no drawable grid, and otherwise the output carries the
/// formatted text as its overlay.
pub fn stamp_image(img: &image::DynamicImage, raw_exif: Vec<u8>) -> (r: Result<
    image::DynamicImage,
    StampError,
>)
    ensures
        spec_extract(raw_exif@) matches Err(e) ==> r == Err::<image::DynamicImage, StampError>(e),
        spec_extract(raw_exif@) matches Ok(t) ==> {
            &&& r is Ok <==> rgb_grid_wf(image_dims(*img), image_rgb_bytes(*img))
            &&& (r matches Err(e) ==> e == StampError::Render)
            &&& (r matches Ok(out) ==> stamp_applied(
                image_dims(*img),
                image_rgb_bytes(*img),
                image_dims(out),
                image_rgb_bytes(out),
                Seq::new(display_text(t).len(), |i: int| display_text(t)[i] as u8),
            ))
        },
{
    let timestamp = match extract_timestamp_from_exif(raw_exif) {
        Ok(t) => t,
        Err(e) => {
            return Err(e);
        },
    };
    let text = format_timestamp(&timestamp);
    proof {
        lemma_dec_digits_shape(timestamp.day as nat);
        lemma_display_text_ascii(timestamp);
    }
    add_timestamp_to_image(img, text.as_str())
}

/// Extracts and formats the capture timestamp of a raw metadata blob without
/// touching any image: the inspection-only pipeline.
pub fn extract_display_timestamp(raw_exif: Vec<u8>) -> (r: Result<String, StampError>)
    ensures
        r is Ok <==> spec_extract(raw_exif@) is Ok,
        r matches Ok(s) ==> s@ == display_text(spec_extract(raw_exif@)->Ok_0),
        r matches Err(e) ==> spec_extract(raw_exif@) == Err::<CalendarTimestamp, StampError>(e),
{
    match extract_timestamp_from_exif(raw_exif) {
        Ok(t) => Ok(format_timestamp(&t)),
        Err(e) => Err(e),
    }
}

} // verus!

use filmstamp::errors::StampError;
use filmstamp::geometry::{
    calculate_font_size, calculate_text_position, FONT_SIZE_FACTOR, HEIGHT_POSITION_FACTOR,
    WIDTH_POSITION_FACTOR,
};
use filmstamp::overlay::draw_timestamp;
use filmstamp::pipeline::{add_timestamp_to_image, stamp_image};
use filmstamp::pixel::PixelBuffer;

use image::{DynamicImage, RgbImage};

#[test]
fn test_add_timestamp_to_image_valid() {
    let width = 500;
    let height = 300;
    let rgb_img = RgbImage::new(width, height);
    let dynamic_img = DynamicImage::ImageRgb8(rgb_img);

    let timestamp = "2025-15-06 11:08:00";
    let result = add_timestamp_to_image(&dynamic_img, timestamp);

    assert!(result.is_ok(), "Failed to add timestamp to image");

    let image = result.unwrap();

    assert_eq!(image.width(), width);
    assert_eq!(image.height(), height);

    assert_ne!(
        image.to_rgb8(),
        dynamic_img.to_rgb8(),
        "Image should be modified after adding timestamp"
    );
}

#[test]
fn test_add_timestamp_to_image_empty_timestamp_fails() {
    let width = 300;
    let height = 300;
    let rgb_img = RgbImage::new(width, height);
    let dynamic_img = DynamicImage::ImageRgb8(rgb_img);

    let result = add_timestamp_to_image(&dynamic_img, "");

    assert!(result.is_err(), "Expected error for empty timestamp");
}

#[test]
fn test_add_timestamp_to_image_degenerate_dimensions_fail() {
    let dynamic_img = DynamicImage::ImageRgb8(RgbImage::new(0, 0));
    let result = add_timestamp_to_image(&dynamic_img, "2025-15-06 11:08:00");
    assert_eq!(result.unwrap_err(), StampError::Render);
}

#[test]
fn test_add_timestamp_to_image_oversized_buffer_fails() {
    // RgbImage::from_raw accepts a container larger than the pixel grid and
    // keeps it whole; such an image is no plain three-bytes-per-pixel grid,
    // so the stamping step rejects it rather than trusting the layout.
    let oversized = RgbImage::from_raw(1, 1, vec![0u8; 6]).unwrap();
    let dynamic_img = DynamicImage::ImageRgb8(oversized);
    let result = add_timestamp_to_image(&dynamic_img, "2025-15-06 11:08:00");
    assert_eq!(result.unwrap_err(), StampError::Render);
}

#[test]
fn test_draw_timestamp_applies_text() {
    let width = 400;
    let height = 300;
    let mut img = PixelBuffer::new(width, height);

    let text_x = 300;
    let text_y = 200;
    let font_size = 20;
    let timestamp = "2023-01-01 12:34:56";

    // Take snapshot of pixels before
    let pixels_before = img.data.clone();

    // Draw timestamp
    draw_timestamp(&mut img, 255, 165, 0, text_x, text_y, font_size, timestamp);

    // Verify image was modified
    assert_ne!(pixels_before, img.data, "Image should be modified after drawing timestamp");
}

#[test]
fn test_draw_timestamp_second_pass_draws_again() {
    // Re-running the overlay draws a second stamp; since it uses the same
    // colour and geometry, the pixels coincide, but the draw itself recurs.
    let mut img = PixelBuffer::new(200, 100);
    draw_timestamp(&mut img, 255, 165, 0, 10, 10, 20, "12:34");
    let after_first = img.data.clone();
    draw_timestamp(&mut img, 255, 165, 0, 12, 12, 20, "12:34");
    assert_ne!(after_first, img.data, "A second overlay draws over the first");
}

#[test]
fn test_draw_timestamp_blank_for_unknown_bytes() {
    // Only digits, '-' and ':' have segments; anything else renders blank.
    let mut img = PixelBuffer::new(100, 100);
    let before = img.data.clone();
    draw_timestamp(&mut img, 255, 165, 0, 5, 5, 20, "ab cd");
    assert_eq!(before, img.data, "bytes with no glyph draw nothing");
}

#[test]
fn test_calculate_font_size_horizontal_valid() {
    assert_eq!(calculate_font_size(1920, 1080), 1920 / FONT_SIZE_FACTOR);
}

#[test]
fn test_calculate_font_size_vertical_valid() {
    assert_eq!(calculate_font_size(1080, 1920), 1080 / FONT_SIZE_FACTOR);
}

#[test]
fn test_calculate_font_size_limit_by_height() {
    // When height is smaller than width/40
    assert_eq!(calculate_font_size(4000, 50), 50);
}

#[test]
fn test_calculate_font_size_exact_values() {
    assert_eq!(calculate_font_size(1920, 1080), 48);
    assert_eq!(calculate_font_size(4000, 50), 50);
}

#[test]
fn test_calculate_text_position_horizontal_valid() {
    assert_eq!(
        calculate_text_position(1920, 1080),
        (1920 - 1920 / WIDTH_POSITION_FACTOR, 1080 - 1080 / HEIGHT_POSITION_FACTOR)
    );
}

#[test]
fn test_calculate_text_position_vertical_valid() {
    assert_eq!(
        calculate_text_position(1080, 1920),
        (1080 - 1080 / WIDTH_POSITION_FACTOR, 1920 - 1920 / HEIGHT_POSITION_FACTOR)
    );
}

#[test]
fn test_calculate_text_position_exact_values() {
    assert_eq!(calculate_text_position(1920, 1080), (1600, 1013));
}

#[test]
fn test_stamp_image_end_to_end() {
    // A blob whose primary image carries "2025:01:02 03:04:05".
    let mut blob: Vec<u8> = Vec::new();
    blob.extend_from_slice(&[0x49, 0x49, 0x2A, 0x00, 8, 0, 0, 0]);
    blob.extend_from_slice(&[1, 0]);
    blob.extend_from_slice(&[0x69, 0x87, 4, 0, 1, 0, 0, 0, 26, 0, 0, 0]);
    blob.extend_from_slice(&[0, 0, 0, 0]);
    blob.extend_from_slice(&[1, 0]);
    blob.extend_from_slice(&[0x03, 0x90, 2, 0, 20, 0, 0, 0, 44, 0, 0, 0]);
    blob.extend_from_slice(&[0, 0, 0, 0]);
    blob.extend_from_slice(b"2025:01:02 03:04:05");
    blob.push(0);

    let dynamic_img = DynamicImage::ImageRgb8(RgbImage::new(500, 300));

    let stamped = stamp_image(&dynamic_img, blob.clone()).unwrap();
    assert_eq!(stamped.width(), 500);
    assert_eq!(stamped.height(), 300);
    assert_ne!(stamped.to_rgb8(), dynamic_img.to_rgb8(), "The overlay must mark the image");

    // The same pipeline fails fast on a malformed field and yields no image.
    let mut bad = blob;
    let n = bad.len();
    bad[n - 20..n - 1].copy_from_slice(b"not:a:date xx:xx:xx");
    let result = stamp_image(&dynamic_img, bad);
    assert_eq!(result.unwrap_err(), StampError::FieldFormat);
}

#[test]
fn test_load_image_missing_file_is_io_error() {
    let result = filmstamp::codec::load_image("no_such_image_file.png");
    assert_eq!(result.unwrap_err(), StampError::Io);
}

#[test]
fn test_save_image_bad_path_is_output_write_error() {
    let dynamic_img = DynamicImage::ImageRgb8(RgbImage::new(4, 4));
    let result = filmstamp::codec::save_image(&dynamic_img, "no_such_directory/out.png");
    assert_eq!(result.unwrap_err(), StampError::OutputWrite);
}

#[test]
fn test_stamp_pixels_are_orange() {
    // The stamp writes the fixed orange colour somewhere in the lower right.
    let dynamic_img = DynamicImage::ImageRgb8(RgbImage::new(500, 300));
    let stamped = add_timestamp_to_image(&dynamic_img, "11:08").unwrap().to_rgb8();
    let mut found = false;
    for py in 0..300u32 {
        for px in 0..500u32 {
            let p = stamped.get_pixel(px, py);
            if p.0 != [0, 0, 0] {
                assert_eq!(p.0, [255, 165, 0]);
                assert!(px >= 416 && py >= 281, "stamp must sit near the bottom right");
                found = true;
            }
        }
    }
    assert!(found, "some pixel must carry the stamp colour");
}

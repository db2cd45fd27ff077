//! Adds a film-camera style date stamp to a photograph.
//!
//! The library decodes the capture timestamp from a raw EXIF metadata blob
//! (scan the tag directory, parse the fixed-layout ASCII field, validate it
//! against the Gregorian calendar), formats it as overlay text, computes the
//! overlay geometry from the image dimensions, and draws the text onto the
//! pixel buffer. File handling and the image codec sit at the edges behind
//! thin trusted wrappers.

pub mod calendar;
pub mod codec;
pub mod display;
pub mod errors;
pub mod field;
pub mod geometry;
pub mod metadata;
pub mod overlay;
pub mod pipeline;
pub mod pixel;

//! The closed set of error kinds a pipeline run can fail with.

use vstd::prelude::*;

verus! {

/// Why a stage of the stamping pipeline failed.
///
/// `MalformedContainer`, `MissingTimestampTag`, `FieldFormat` and
/// `InvalidCalendarDate` stay distinguishable so that diagnostics can say
/// exactly why timestamp extraction failed; the remaining kinds come from the
/// codec edges.
#[derive(Clone, Copy, Debug, PartialEq, Eq, Structural)]
pub enum StampError {
    /// The input file could not be opened or read.
    Io,
    /// The codec could not identify or decode the image.
    UnrecognizedFormat,
    /// The metadata blob is not a valid tag directory at all.
    MalformedContainer,
    /// The tag directory is valid but lacks the capture-time tag.
    MissingTimestampTag,
    /// The tag is present but its value has the wrong kind or layout.
    FieldFormat,
    /// The digits are well-formed but name an impossible calendar date/time.
    InvalidCalendarDate,
    /// An overlay drawing precondition was violated (empty text, degenerate
    /// dimensions).
    Render,
    /// The stamped image could not be encoded or written.
    OutputWrite,
}

/// The fixed diagnostic text of each error kind.
pub open spec fn describe_text(e: StampError) -> Seq<char> {
    match e {
        StampError::Io => "input file cannot be opened or read"@,
        StampError::UnrecognizedFormat => "image format cannot be identified or decoded"@,
        StampError::MalformedContainer => "metadata blob is not a valid tag directory"@,
        StampError::MissingTimestampTag => "tag directory lacks the capture-time tag"@,
        StampError::FieldFormat => "capture-time tag has the wrong kind or layout"@,
        StampError::InvalidCalendarDate => "timestamp names an impossible calendar date or time"@,
        StampError::Render => "overlay drawing precondition violated"@,
        StampError::OutputWrite => "stamped image cannot be encoded or written"@,
    }
}

impl StampError {
    /// A short fixed description of the error kind, for diagnostics.
    pub fn describe(&self) -> (s: &'static str)
        ensures
            s@ == describe_text(*self),
    {
        match self {
            StampError::Io => "input file cannot be opened or read",
            StampError::UnrecognizedFormat => "image format cannot be identified or decoded",
            StampError::MalformedContainer => "metadata blob is not a valid tag directory",
            StampError::MissingTimestampTag => "tag directory lacks the capture-time tag",
            StampError::FieldFormat => "capture-time tag has the wrong kind or layout",
            StampError::InvalidCalendarDate => "timestamp names an impossible calendar date or time",
            StampError::Render => "overlay drawing precondition violated",
            StampError::OutputWrite => "stamped image cannot be encoded or written",
        }
    }
}

} // verus!

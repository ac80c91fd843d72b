//! Error types of the library.

use vstd::prelude::*;

verus! {

/// A failure the platform clipboard reports, by kind.
#[derive(Debug)]
pub enum ClipboardFailure {
    /// The contents are not available in the requested format, or the clipboard is empty.
    ContentNotAvailable,
    /// The clipboard is not supported by the system's configuration.
    ClipboardNotSupported,
    /// Another party holds the clipboard.
    ClipboardOccupied,
    /// The data could not be converted to or from the clipboard's format.
    ConversionFailure,
    /// Any other failure, with the platform's description.
    Unknown { description: String },
}

/// An error while using the clipboard.
#[derive(Debug)]
pub enum ClipboardError {
    Uninitialized,
    SaveFailed { error: String },
    DoesNotContainText,
    DoesNotContainAnImage,
    ContentUnavailable,
    NotSupported,
    Occupied,
    ConversionFailed,
    Unknown { error: String },
}

/// The error a clipboard failure becomes.
pub open spec fn error_of_failure(f: ClipboardFailure) -> ClipboardError {
    match f {
        ClipboardFailure::ContentNotAvailable => ClipboardError::ContentUnavailable,
        ClipboardFailure::ClipboardNotSupported => ClipboardError::NotSupported,
        ClipboardFailure::ClipboardOccupied => ClipboardError::Occupied,
        ClipboardFailure::ConversionFailure => ClipboardError::ConversionFailed,
        ClipboardFailure::Unknown { description } => ClipboardError::Unknown { error: description },
    }
}

impl From<ClipboardFailure> for ClipboardError {
    fn from(f: ClipboardFailure) -> (r: ClipboardError) {
        match f {
            ClipboardFailure::ContentNotAvailable => ClipboardError::ContentUnavailable,
            ClipboardFailure::ClipboardNotSupported => ClipboardError::NotSupported,
            ClipboardFailure::ClipboardOccupied => ClipboardError::Occupied,
            ClipboardFailure::ConversionFailure => ClipboardError::ConversionFailed,
            ClipboardFailure::Unknown { description } => ClipboardError::Unknown { error: description },
        }
    }
}

impl vstd::std_specs::convert::FromSpecImpl<ClipboardFailure> for ClipboardError {
    open spec fn obeys_from_spec() -> bool {
        true
    }

    open spec fn from_spec(f: ClipboardFailure) -> ClipboardError {
        error_of_failure(f)
    }
}

/// The text shown to the user for an error.
pub open spec fn clipboard_error_text(e: ClipboardError) -> Seq<char> {
    match e {
        ClipboardError::Uninitialized => "Clipboard content is uninitialized"@,
        ClipboardError::SaveFailed { error } => "Saving to clipboard failed: "@ + error@,
        ClipboardError::DoesNotContainText => "Clipboard does not contain text"@,
        ClipboardError::DoesNotContainAnImage => "Clipboard does not contain an image"@,
        ClipboardError::ContentUnavailable => "Clipboard content is unavailable"@,
        ClipboardError::NotSupported => "Clipboard is not supported on your platform"@,
        ClipboardError::Occupied => "Clipboard is occupied by another application. Try again"@,
        ClipboardError::ConversionFailed =>
            "Cannot convert data to/from a clipboard-specific format. Try again or report a bug"@,
        ClipboardError::Unknown { error } => "Unknown clipboard error: "@ + error@,
    }
}

impl ClipboardError {
    /// The text shown to the user for this error.
    pub fn message(&self) -> (r: String)
        ensures
            r@ == clipboard_error_text(*self),
    {
        match self {
            ClipboardError::Uninitialized => String::from_str("Clipboard content is uninitialized"),
            ClipboardError::SaveFailed { error } => String::from_str(
                "Saving to clipboard failed: ",
            ).concat(error.as_str()),
            ClipboardError::DoesNotContainText => String::from_str("Clipboard does not contain text"),
            ClipboardError::DoesNotContainAnImage => String::from_str(
                "Clipboard does not contain an image",
            ),
            ClipboardError::ContentUnavailable => String::from_str("Clipboard content is unavailable"),
            ClipboardError::NotSupported => String::from_str(
                "Clipboard is not supported on your platform",
            ),
            ClipboardError::Occupied => String::from_str(
                "Clipboard is occupied by another application. Try again",
            ),
            ClipboardError::ConversionFailed => String::from_str(
                "Cannot convert data to/from a clipboard-specific format. Try again or report a bug",
            ),
            ClipboardError::Unknown { error } => String::from_str("Unknown clipboard error: ").concat(
                error.as_str(),
            ),
        }
    }
}

} // verus!

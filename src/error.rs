use vstd::prelude::*;

verus! {

/// Why a pipeline operation failed. Every variant is terminal for the
/// operation that produced it.
#[derive(Debug, Clone)]
pub enum ConvertError {
    /// A required external tool could not be located.
    NotFound(String),
    /// The settings or the source do not allow the operation.
    Invalid(String),
    /// The requested range yields fewer than two frames.
    TooShort,
    /// The extraction tool produced no whole frame.
    NoFrames,
    /// The settings name no segment to work on.
    NoSegments,
    /// An external process exited unsuccessfully; carries its diagnostics.
    ProcessFailure(String),
    /// The shared cancellation flag was observed set.
    Cancelled,
    /// An external tool produced output that could not be understood.
    Parse(String),
    /// A filesystem operation failed.
    Io(String),
    /// The image encoder refused its configuration or failed while encoding.
    Encoder(String),
}

impl ConvertError {
    /// The text shown to the user for this failure.
    pub open spec fn spec_message(&self) -> Seq<char> {
        match self {
            ConvertError::NotFound(m) => m@,
            ConvertError::Invalid(m) => m@,
            ConvertError::TooShort => "Video is too short - need at least 2 frames"@,
            ConvertError::NoFrames => "No frames were extracted from the video"@,
            ConvertError::NoSegments => "No segments to export"@,
            ConvertError::ProcessFailure(m) => m@,
            ConvertError::Cancelled => "Conversion cancelled"@,
            ConvertError::Parse(m) => m@,
            ConvertError::Io(m) => m@,
            ConvertError::Encoder(m) => m@,
        }
    }

    /// The text shown to the user for this failure.
    pub fn message(&self) -> (r: String)
        ensures
            r@ == self.spec_message(),
    {
        match self {
            ConvertError::NotFound(m) => m.clone(),
            ConvertError::Invalid(m) => m.clone(),
            ConvertError::TooShort => String::from_str("Video is too short - need at least 2 frames"),
            ConvertError::NoFrames => String::from_str("No frames were extracted from the video"),
            ConvertError::NoSegments => String::from_str("No segments to export"),
            ConvertError::ProcessFailure(m) => m.clone(),
            ConvertError::Cancelled => String::from_str("Conversion cancelled"),
            ConvertError::Parse(m) => m.clone(),
            ConvertError::Io(m) => m.clone(),
            ConvertError::Encoder(m) => m.clone(),
        }
    }
}

} // verus!

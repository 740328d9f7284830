//! The ways a run of the workflow can end without a playback URL.

use vstd::prelude::*;

verus! {

/// Why the workflow stopped before a playback URL was known.
#[derive(Debug, Clone, PartialEq, Eq)]
pub enum ProcessError {
    /// The input path does not exist.
    MissingFile,
    /// The content type inferred for the input path is not a video type.
    NotVideo,
    /// The input path has no final file-name component.
    InvalidFileName,
    /// A request could not be sent or its response could not be read.
    Transport,
    /// The service refused the credentials while negotiating the upload.
    Unauthorized,
    /// The service answered the negotiation with another status.
    UnexpectedStatus { status: u16 },
    /// A response body did not hold the JSON that was expected.
    Deserialization,
    /// The service answered the upload with a status outside `200..300`.
    UploadRejected { status: u16 },
    /// No playback URL appeared for the asset within the time allowed.
    TimedOut { asset_id: String },
}

impl ProcessError {
    /// Input errors: the path was refused before any request was made.
    pub open spec fn spec_is_input_error(&self) -> bool {
        ||| self is MissingFile
        ||| self is NotVideo
        ||| self is InvalidFileName
    }

    /// Whether this error refuses the input path itself, which ends the
    /// process rather than being handed back to a caller.
    pub fn is_input_error(&self) -> (r: bool)
        ensures
            r == self.spec_is_input_error(),
    {
        match self {
            ProcessError::MissingFile | ProcessError::NotVideo | ProcessError::InvalidFileName => true,
            _ => false,
        }
    }
}

} // verus!

//! The failures of a capture.

use vstd::prelude::*;
use vstd::string::*;

verus! {

/// Why a capture failed.
#[derive(Debug, Clone, PartialEq, Eq)]
pub enum RecordingError {
    /// The upstream could not be reached or answered with a failure status.
    NetworkError(String),
    /// Local storage could not be read, written or created.
    Io(String),
    /// A fetch task still held the session when the capture was drained.
    ArcUnwrapError,
}

impl RecordingError {
    /// A readable description of the failure.
    pub fn message(&self) -> (r: String)
        ensures
            self matches RecordingError::NetworkError(m) ==> r@ == "network error: "@ + m@,
            self matches RecordingError::Io(m) ==> r@ == "IO error occurred: "@ + m@,
            self is ArcUnwrapError ==> r@ == "failed to unwrap Arc"@,
    {
        match self {
            RecordingError::NetworkError(m) => {
                let mut s = String::from_str("network error: ");
                s.append(m.as_str());
                s
            },
            RecordingError::Io(m) => {
                let mut s = String::from_str("IO error occurred: ");
                s.append(m.as_str());
                s
            },
            RecordingError::ArcUnwrapError => String::from_str("failed to unwrap Arc"),
        }
    }
}

} // verus!

//! The errors of the Java component.

use vstd::prelude::*;

use crate::text::concat2;

verus! {

/// What can go wrong with Java runtimes.
#[derive(Debug)]
pub enum JavaError {
    /// No Java runtime at the given path.
    NotFound,
    /// A version text that cannot be read.
    InvalidVersion(String),
    /// The runtime did not answer as a Java runtime does.
    VerificationFailed(String),
    /// A request or a download failed.
    NetworkError(String),
    /// A file operation failed.
    IoError(String),
    /// An operation took too long.
    Timeout(String),
    /// Data could not be read or written in its format.
    SerializationError(String),
    /// Settings that cannot be used.
    InvalidConfig(String),
    /// A download or an installation failed.
    DownloadFailed(String),
    /// An archive could not be unpacked.
    ExtractionFailed(String),
    /// Content failed verification.
    ChecksumMismatch(String),
    /// Anything else.
    Other(String),
}

/// The text that describes an error.
pub open spec fn java_error_text(error: JavaError) -> Seq<char> {
    match error {
        JavaError::NotFound => "Java installation not found"@,
        JavaError::InvalidVersion(msg) => "Invalid Java version: "@ + msg@,
        JavaError::VerificationFailed(msg) => "Java verification failed: "@ + msg@,
        JavaError::NetworkError(msg) => "Network error: "@ + msg@,
        JavaError::IoError(msg) => "I/O error: "@ + msg@,
        JavaError::Timeout(msg) => "Operation timeout: "@ + msg@,
        JavaError::SerializationError(msg) => "Serialization error: "@ + msg@,
        JavaError::InvalidConfig(msg) => "Invalid configuration: "@ + msg@,
        JavaError::DownloadFailed(msg) => "Download failed: "@ + msg@,
        JavaError::ExtractionFailed(msg) => "Extraction failed: "@ + msg@,
        JavaError::ChecksumMismatch(msg) => "Checksum mismatch: "@ + msg@,
        JavaError::Other(msg) => msg@,
    }
}

impl JavaError {
    /// The text that describes the error.
    pub fn message(&self) -> (text: String)
        ensures
            text@ == java_error_text(*self),
    {
        match self {
            JavaError::NotFound => "Java installation not found".to_string(),
            JavaError::InvalidVersion(msg) => concat2("Invalid Java version: ", msg.as_str()),
            JavaError::VerificationFailed(msg) => concat2(
                "Java verification failed: ",
                msg.as_str(),
            ),
            JavaError::NetworkError(msg) => concat2("Network error: ", msg.as_str()),
            JavaError::IoError(msg) => concat2("I/O error: ", msg.as_str()),
            JavaError::Timeout(msg) => concat2("Operation timeout: ", msg.as_str()),
            JavaError::SerializationError(msg) => concat2("Serialization error: ", msg.as_str()),
            JavaError::InvalidConfig(msg) => concat2("Invalid configuration: ", msg.as_str()),
            JavaError::DownloadFailed(msg) => concat2("Download failed: ", msg.as_str()),
            JavaError::ExtractionFailed(msg) => concat2("Extraction failed: ", msg.as_str()),
            JavaError::ChecksumMismatch(msg) => concat2("Checksum mismatch: ", msg.as_str()),
            JavaError::Other(msg) => msg.clone(),
        }
    }

    /// The error for a failed request, from the text of the failure and
    /// whether it was a timeout.
    pub fn from_request(detail: String, timed_out: bool) -> (error: Self)
        ensures
            error == if timed_out {
                JavaError::Timeout(detail)
            } else {
                JavaError::NetworkError(detail)
            },
    {
        if timed_out {
            JavaError::Timeout(detail)
        } else {
            JavaError::NetworkError(detail)
        }
    }
}

impl From<String> for JavaError {
    fn from(err: String) -> (error: Self) {
        JavaError::Other(err)
    }
}

impl vstd::std_specs::convert::FromSpecImpl<String> for JavaError {
    open spec fn obeys_from_spec() -> bool {
        true
    }

    open spec fn from_spec(err: String) -> Self {
        JavaError::Other(err)
    }
}

} // verus!

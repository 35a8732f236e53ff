//! The error taxonomy of the run.
//!
//! Every stage of the pipeline fails with exactly one of these kinds, and
//! every failure is terminal for the run: nothing is caught or retried.

use vstd::prelude::*;
use vstd::string::StringExecFns;

verus! {

/// One terminal failure kind per pipeline stage.
#[derive(Clone, Copy, Debug, PartialEq, Eq, Structural)]
pub enum ApodError {
    /// The configuration file is missing, unreadable, malformed, or lacks a
    /// required field.
    ConfigError,
    /// A network transport failure, or a non-success HTTP status, on either
    /// remote call.
    FetchError,
    /// The metadata body is valid JSON transport-wise but does not match the
    /// expected shape.
    SchemaError,
    /// The day's entry is not an image, so there is nothing to download.
    MediaTypeError,
    /// Writing the embedded metadata into the image buffer failed.
    EncodingError,
    /// The image URL carries no file extension in its final path segment.
    ExtensionError,
    /// A filesystem write or copy failed.
    IoError,
    /// The storage directory cannot be listed or is empty.
    DirectoryError,
    /// Creating the favorite symlink failed.
    LinkError,
}

impl ApodError {
    /// A human-readable description, for the binary to print: one fixed
    /// line per kind.
    pub fn message(&self) -> (r: String)
        ensures
            ({
                r@ == match *self {
                    ApodError::ConfigError => "unable to read the config: make sure it exists and is valid json with all required fields"@,
                    ApodError::FetchError => "unable to reach the remote endpoint or got a non-success status"@,
                    ApodError::SchemaError => "the metadata response does not have the expected shape"@,
                    ApodError::MediaTypeError => "wrong media type: not an image today"@,
                    ApodError::EncodingError => "could not write the embedded metadata into the image"@,
                    ApodError::ExtensionError => "the image url carries no file extension"@,
                    ApodError::IoError => "a filesystem write failed"@,
                    ApodError::DirectoryError => "the storage directory cannot be read or is empty"@,
                    ApodError::LinkError => "could not create the favorite symlink"@,
                }
            }),
    {
        match self {
            ApodError::ConfigError => String::from_str(
                "unable to read the config: make sure it exists and is valid json with all required fields",
            ),
            ApodError::FetchError => String::from_str(
                "unable to reach the remote endpoint or got a non-success status",
            ),
            ApodError::SchemaError => String::from_str(
                "the metadata response does not have the expected shape",
            ),
            ApodError::MediaTypeError => String::from_str("wrong media type: not an image today"),
            ApodError::EncodingError => String::from_str(
                "could not write the embedded metadata into the image",
            ),
            ApodError::ExtensionError => String::from_str(
                "the image url carries no file extension",
            ),
            ApodError::IoError => String::from_str("a filesystem write failed"),
            ApodError::DirectoryError => String::from_str(
                "the storage directory cannot be read or is empty",
            ),
            ApodError::LinkError => String::from_str("could not create the favorite symlink"),
        }
    }
}

} // verus!

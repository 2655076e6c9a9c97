//! The failure conditions of the generation pipeline.
use vstd::prelude::*;

verus! {

/// Everything that can go wrong between receiving a generation request and
/// writing the rendered batch.
#[derive(Debug, Clone, Copy, PartialEq, Eq, Structural)]
pub enum Error {
    /// The supplied output path has no usable file extension, or names an
    /// existing directory.
    InvalidPath,
    /// A generator was configured with an empty sampling interval.
    InvalidRange,
    /// The name-catalog configuration lacks the requested country.
    ConfigError,
    /// The resolved sink could not be opened or written.
    IoError,
    /// The structured document could not be rendered into the requested
    /// format.
    SerializationError,
}

impl Error {
    /// A short human-readable description, for the command layer to print.
    pub fn message(&self) -> (r: &'static str)
        ensures
            self is InvalidPath ==> r@ == "Invalid path"@,
            self is InvalidRange ==> r@ == "Invalid range"@,
            self is ConfigError ==> r@ == "Configuration error"@,
            self is IoError ==> r@ == "I/O error"@,
            self is SerializationError ==> r@ == "Serialization error"@,
    {
        match self {
            Error::InvalidPath => "Invalid path",
            Error::InvalidRange => "Invalid range",
            Error::ConfigError => "Configuration error",
            Error::IoError => "I/O error",
            Error::SerializationError => "Serialization error",
        }
    }
}

} // verus!

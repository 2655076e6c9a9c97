//! Generation of synthetic data records — UUIDs, calendar dates and person
//! names — rendered into a structured document and serialized as JSON, YAML,
//! TOML or plain text.
pub mod date;
pub mod document;
mod error;
pub mod generator;
pub mod name;
pub mod json;
pub mod pipeline;
mod rng;
pub mod text;

pub use error::Error;

use vstd::prelude::*;

verus! {

/// The serialization format for a generated batch.
#[derive(Debug, Clone, Copy, PartialEq, Eq, Structural)]
pub enum OutputFormat {
    Text,
    Json,
    Yaml,
    Toml,
}

impl Default for OutputFormat {
    /// The format used when neither an explicit flag nor a file extension
    /// selects one.
    fn default() -> (r: OutputFormat)
        ensures
            r == OutputFormat::Text,
    {
        OutputFormat::Text
    }
}

} // verus!

//! Options and the output-format selector for CSV conversion.

use vstd::prelude::*;

use crate::cli::text::matches_lower;
use crate::error::Error;

verus! {

/// The serialization formats a CSV file can be converted to.
#[derive(Clone, Copy, Debug, PartialEq, Eq, Structural)]
pub enum OutputFormat {
    /// JSON output.
    Json,
    /// YAML output.
    Yaml,
}

/// The selector for a CSV conversion command.
#[derive(Clone, Debug)]
pub struct CsvOpts {
    /// Input CSV file.
    pub input: String,
    /// Output file; derived from the format when absent.
    pub output: Option<String>,
    /// Output serialization format.
    pub format: OutputFormat,
    /// Whether the CSV file has a header row.
    pub header: bool,
    /// Delimiter character.
    pub delimiter: char,
}

impl OutputFormat {
    /// The format a selector value names, case-insensitively; any value
    /// other than `json` and `yaml` is unsupported.
    pub fn parse(s: &str) -> (r: Result<OutputFormat, Error>)
        ensures
            r == if matches_lower(s@, "json"@) {
                Ok::<OutputFormat, Error>(OutputFormat::Json)
            } else if matches_lower(s@, "yaml"@) {
                Ok::<OutputFormat, Error>(OutputFormat::Yaml)
            } else {
                Err::<OutputFormat, Error>(Error::UnsupportedAlgorithm)
            },
    {
        if crate::cli::text::eq_lower(s, "json") {
            Ok(OutputFormat::Json)
        } else if crate::cli::text::eq_lower(s, "yaml") {
            Ok(OutputFormat::Yaml)
        } else {
            Err(Error::UnsupportedAlgorithm)
        }
    }

    /// The selector value that names this format, also used as the file
    /// extension of a derived output name.
    pub fn as_str(&self) -> (r: &'static str)
        ensures
            self is Json ==> r@ == "json"@,
            self is Yaml ==> r@ == "yaml"@,
    {
        match self {
            OutputFormat::Json => "json",
            OutputFormat::Yaml => "yaml",
        }
    }
}

} // verus!

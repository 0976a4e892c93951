//! An earlier, smaller command-line surface kept for callers that only
//! convert CSV: one command, with the output file always named.

use vstd::prelude::*;

verus! {

/// The whole command line: one command.
#[derive(Clone, Debug)]
pub struct Opts {
    /// The command to run.
    pub cmd: SubCommand,
}

/// The single command this surface offers.
#[derive(Clone, Debug)]
pub enum SubCommand {
    /// Show CSV, or convert CSV to other formats.
    Csv(CsvOpts),
}

/// The selector for a CSV conversion command.
#[derive(Clone, Debug)]
pub struct CsvOpts {
    /// Input CSV file.
    pub input: String,
    /// Output JSON file.
    pub output: String,
    /// Whether the CSV file has a header row.
    pub header: bool,
    /// Delimiter character.
    pub delimiter: char,
}

} // verus!

//! The command-line surface: one options type per command, and the check
//! that classifies an input argument as the standard-input sentinel or as a
//! named file.

pub mod base64;
pub mod csv;
pub mod genpass;
pub mod http;
pub mod text;

pub use base64::Base64DecodeOpts;
pub use base64::Base64EncodeOpts;
pub use base64::Base64Format;
pub use base64::Base64SubCommand;
pub use csv::CsvOpts;
pub use csv::OutputFormat;
pub use genpass::GenPassOpts;
pub use http::HttpServeOpts;
pub use http::HttpSubCommand;
pub use text::TextGenOpts;
pub use text::TextSignFormat;
pub use text::TextSignOpts;
pub use text::TextSubCommand;
pub use text::TextVerifyOpts;

use vstd::prelude::*;

verus! {

/// The whole command line: one command.
#[derive(Clone, Debug)]
pub struct Opts {
    /// The command to run.
    pub cmd: SubCommand,
}

/// The commands the tool offers.
#[derive(Clone, Debug)]
pub enum SubCommand {
    /// Show CSV, or convert CSV to other formats.
    Csv(CsvOpts),
    /// Generate a random password.
    GenPass(GenPassOpts),
    /// Base64 encode or decode.
    Base64(Base64SubCommand),
    /// Text signing and verification.
    Text(TextSubCommand),
    /// HTTP server for file serving and directory listing.
    Http(HttpSubCommand),
}

/// Relies on `std::path::Path::exists`: whether a path points at something
/// on disk right now. Nothing lasting can be promised of the file system.
#[verifier::external_body]
fn file_exists(name: &str) -> bool {
    std::path::Path::new(name).exists()
}

/// Whether an input argument is the reserved value that stands for the
/// standard-input stream rather than a file name.
pub fn is_stdin_sentinel(s: &str) -> (r: bool)
    ensures
        r == (s@ == "-"@),
{
    proof {
        reveal_strlit("-");
    }
    if s.unicode_len() == 1 {
        let dash = s.get_char(0) == '-';
        proof {
            if dash {
                assert(s@ =~= "-"@);
            }
        }
        dash
    } else {
        false
    }
}

/// The message that rejects an input argument.
pub open spec fn missing_file_message(filename: Seq<char>) -> Seq<char> {
    "File '"@ + filename + "' does not exist"@
}

/// The decision on an input argument, taking the probe's answer as a value:
/// accepted, verbatim and never canonicalized, exactly when it is the
/// standard-input sentinel `-` or the probe found it on disk; rejected with
/// a message naming it otherwise.
pub fn classify_input(filename: &str, present: bool) -> (r: Result<String, String>)
    ensures
        r is Ok <==> (present || filename@ == "-"@),
        r matches Ok(p) ==> p@ == filename@,
        r matches Err(m) ==> m@ == missing_file_message(filename@),
{
    if is_stdin_sentinel(filename) || present {
        Ok(filename.to_owned())
    } else {
        let msg = String::from_str("File '").concat(filename).concat("' does not exist");
        Err(msg)
    }
}

/// An input argument is accepted when it is the standard-input sentinel `-`
/// or an existing file; anything else is rejected with a message naming it.
/// Whether a name is on disk only the probe can say, so the acceptance
/// condition itself is stated on `classify_input`, which this function
/// applies to the probe's answer.
pub fn verify_file_exists(filename: &str) -> (r: Result<String, String>)
    ensures
        r matches Ok(p) ==> p@ == filename@,
        filename@ == "-"@ ==> r is Ok,
        r matches Err(m) ==> m@ == missing_file_message(filename@) && filename@ != "-"@,
{
    classify_input(filename, file_exists(filename))
}

} // verus!

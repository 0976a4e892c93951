//! Options for the file-serving command.

use vstd::prelude::*;

verus! {

/// An HTTP serving command.
#[derive(Clone, Debug)]
pub enum HttpSubCommand {
    /// Serve files from a directory.
    Serve(HttpServeOpts),
}

/// The selector for a serve command.
#[derive(Clone, Debug)]
pub struct HttpServeOpts {
    /// Directory whose files are served.
    pub dir: String,
    /// Port the server listens on.
    pub port: u16,
}

} // verus!

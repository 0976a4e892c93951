//! Options for password generation.

use vstd::prelude::*;

verus! {

/// The selector for a password-generation command.
#[derive(Clone, Copy, Debug)]
pub struct GenPassOpts {
    /// How many characters the password holds.
    pub length: u8,
    /// Include capital letters.
    pub uppercase: bool,
    /// Include small letters.
    pub lowercase: bool,
    /// Include digits.
    pub number: bool,
    /// Include punctuation.
    pub special: bool,
}

} // verus!

//! Errors of the plain-text specification reader. The reader itself does
//! file input and lives with the host; these are the failures it reports.

use vstd::prelude::*;

verus! {

/// Why a plain-text specification could not be read: the file could not be
/// opened or read (with the reported reason), or a line held a token the
/// format does not know (with the offending text and its line number).
#[derive(Debug)]
pub enum ParsingError {
    FileError(String),
    InvalidToken(String, usize),
}

} // verus!

//! Diagnostics for what the system refuses.
//!
//! Listing the class directory, reading one of its entries and writing a
//! control file can each fail. Every such failure is told in one line that
//! names the program, the path that was being worked on and the system's
//! own words for the error.

use vstd::prelude::*;
use vstd::string::*;

verus! {

/// The diagnostic for an error of the system at a path.
pub open spec fn error_text(program: Seq<char>, path: Seq<char>, error: Seq<char>) -> Seq<char> {
    program + ": "@ + path + ": "@ + error
}

/// The diagnostic for an error of the system at a path: one line, without a
/// line end as long as the parts hold none.
pub fn error_line(program: &str, path: &str, error: &str) -> (line: String)
    ensures
        line@ == error_text(program@, path@, error@),
{
    let mut line = String::from_str(program);
    line.append(": ");
    line.append(path);
    line.append(": ");
    line.append(error);
    line
}

} // verus!

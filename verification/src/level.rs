//! The three performance levels and the tokens that name them.

use vstd::prelude::*;
use vstd::string::*;

use crate::bytes::{ascii, ascii_bytes, same_bytes};

verus! {

/// Target performance level of a graphics device.
#[derive(Debug, Clone, Copy, PartialEq, Eq, Structural, PartialOrd, Ord, Hash)]
pub enum PerfLevel {
    /// Clocks are forced to the lowest power state.
    Low,
    /// The driver picks the power state that suits the load.
    Auto,
    /// Clocks are forced to the highest power state.
    High,
}

impl PerfLevel {
    /// The token of a level: its name on the command line and, byte for byte,
    /// what its control file holds once the level is set.
    pub open spec fn contents(self) -> Seq<u8> {
        match self {
            PerfLevel::Low => ascii("low"@),
            PerfLevel::Auto => ascii("auto"@),
            PerfLevel::High => ascii("high"@),
        }
    }

    /// The level that a byte string names, if it names one. The match is on
    /// the bytes as they are: no case folding, no trimming.
    pub open spec fn named_by(token: Seq<u8>) -> Option<PerfLevel> {
        if token == PerfLevel::Low.contents() {
            Some(PerfLevel::Low)
        } else if token == PerfLevel::Auto.contents() {
            Some(PerfLevel::Auto)
        } else if token == PerfLevel::High.contents() {
            Some(PerfLevel::High)
        } else {
            None
        }
    }

    /// Textual value for writing to the control file.
    pub fn as_contents(self) -> (contents: &'static [u8])
        ensures
            contents@ == self.contents(),
    {
        proof {
            reveal_strlit("low");
            reveal_strlit("auto");
            reveal_strlit("high");
        }
        match self {
            PerfLevel::Low => ascii_bytes("low"),
            PerfLevel::Auto => ascii_bytes("auto"),
            PerfLevel::High => ascii_bytes("high"),
        }
    }

    /// The level named by a token, or `None` for any other byte string.
    pub fn from_token(token: &[u8]) -> (level: Option<PerfLevel>)
        ensures
            level == PerfLevel::named_by(token@),
    {
        if same_bytes(token, PerfLevel::Low.as_contents()) {
            Some(PerfLevel::Low)
        } else if same_bytes(token, PerfLevel::Auto.as_contents()) {
            Some(PerfLevel::Auto)
        } else if same_bytes(token, PerfLevel::High.as_contents()) {
            Some(PerfLevel::High)
        } else {
            None
        }
    }
}

/// Each level's token is the plain lower-case word, with nothing before or
/// after it: no whitespace, no newline, no terminator.
pub proof fn contents_are_bare_words()
    ensures
        PerfLevel::Low.contents() == seq![0x6cu8, 0x6fu8, 0x77u8],
        PerfLevel::Auto.contents() == seq![0x61u8, 0x75u8, 0x74u8, 0x6fu8],
        PerfLevel::High.contents() == seq![0x68u8, 0x69u8, 0x67u8, 0x68u8],
{
    reveal_strlit("low");
    reveal_strlit("auto");
    reveal_strlit("high");
    assert(PerfLevel::Low.contents() =~= seq![0x6cu8, 0x6fu8, 0x77u8]);
    assert(PerfLevel::Auto.contents() =~= seq![0x61u8, 0x75u8, 0x74u8, 0x6fu8]);
    assert(PerfLevel::High.contents() =~= seq![0x68u8, 0x69u8, 0x67u8, 0x68u8]);
}

/// A token names the level whose contents it is, and no other: reading a
/// level's own token gives the level back, and what is written for a token
/// that was read is that token.
pub proof fn token_round_trip(level: PerfLevel, token: Seq<u8>)
    ensures
        PerfLevel::named_by(level.contents()) == Some(level),
        PerfLevel::named_by(token) == Some(level) <==> token == level.contents(),
{
    contents_are_bare_words();
    assert(PerfLevel::Low.contents()[0] != PerfLevel::Auto.contents()[0]);
    assert(PerfLevel::Low.contents()[0] != PerfLevel::High.contents()[0]);
    assert(PerfLevel::Auto.contents()[0] != PerfLevel::High.contents()[0]);
}

} // verus!

//! Reading the performance level off the command line.
//!
//! The command line is the list of arguments after the program's name, each
//! a byte string. It names a level if and only if it holds exactly one
//! argument and that argument is a level's token.

use vstd::prelude::*;
use vstd::string::*;

use crate::escape::{append_escaped, escaped};
use crate::level::PerfLevel;

verus! {

/// Why a command line names no level.
#[derive(Debug, Clone, PartialEq, Eq)]
pub enum UsageError {
    /// There is no argument.
    Missing,
    /// The only argument, which is no level's token.
    InvalidLevel(Vec<u8>),
    /// The second argument, where there is more than one.
    ExtraArgument(Vec<u8>),
}

/// A `UsageError` as a mathematical value.
pub enum UsageErrorView {
    Missing,
    InvalidLevel(Seq<u8>),
    ExtraArgument(Seq<u8>),
}

impl View for UsageError {
    type V = UsageErrorView;

    open spec fn view(&self) -> UsageErrorView {
        match self {
            UsageError::Missing => UsageErrorView::Missing,
            UsageError::InvalidLevel(arg) => UsageErrorView::InvalidLevel(arg@),
            UsageError::ExtraArgument(arg) => UsageErrorView::ExtraArgument(arg@),
        }
    }
}

impl DeepView for UsageError {
    type V = UsageErrorView;

    open spec fn deep_view(&self) -> UsageErrorView {
        self@
    }
}

/// What a command line asks for: the level it names, or why it names none.
///
/// With two or more arguments the fault is the second one, whatever the
/// first holds.
pub open spec fn verdict(args: Seq<Seq<u8>>) -> Result<PerfLevel, UsageErrorView> {
    if args.len() == 0 {
        Err(UsageErrorView::Missing)
    } else if args.len() >= 2 {
        Err(UsageErrorView::ExtraArgument(args[1]))
    } else {
        match PerfLevel::named_by(args[0]) {
            Some(level) => Ok(level),
            None => Err(UsageErrorView::InvalidLevel(args[0])),
        }
    }
}

/// The usage line for a program of the given name.
pub open spec fn usage_text(program: Seq<char>) -> Seq<char> {
    "Usage: "@ + program + " [low|auto|high]"@
}

impl UsageErrorView {
    /// The line that names the program and the fault. An argument is echoed
    /// in escaped form.
    pub open spec fn message(self, program: Seq<char>) -> Seq<char> {
        match self {
            UsageErrorView::Missing => program + ": missing performance level"@,
            UsageErrorView::InvalidLevel(arg) => program + ": invalid performance level: "@ + escaped(
                arg,
            ),
            UsageErrorView::ExtraArgument(arg) => program + ": invalid argument: "@ + escaped(arg),
        }
    }
}

/// Parse the performance level from the command line's arguments.
pub fn parse_args(args: &[Vec<u8>]) -> (result: Result<PerfLevel, UsageError>)
    ensures
        match result {
            Ok(level) => verdict(args.deep_view()) === Ok(level),
            Err(error) => verdict(args.deep_view()) === Err(error@),
        },
{
    assert(args.deep_view().len() == args@.len());
    if args.len() == 0 {
        Err(UsageError::Missing)
    } else if args.len() >= 2 {
        assert(args.deep_view()[1] =~= args@[1]@);
        Err(UsageError::ExtraArgument(args[1].clone()))
    } else {
        assert(args.deep_view()[0] =~= args@[0]@);
        match PerfLevel::from_token(args[0].as_slice()) {
            Some(level) => Ok(level),
            None => Err(UsageError::InvalidLevel(args[0].clone())),
        }
    }
}

/// The one-line usage message.
pub fn usage(program: &str) -> (line: String)
    ensures
        line@ == usage_text(program@),
{
    let mut line = String::from_str("Usage: ");
    line.append(program);
    line.append(" [low|auto|high]");
    line
}

impl UsageError {
    /// The diagnostic for this error, without a line end. The echoed
    /// argument is escaped, so the diagnostic is one line whenever the
    /// program's name is.
    pub fn message(&self, program: &str) -> (line: String)
        ensures
            line@ == self@.message(program@),
    {
        let mut line = String::from_str(program);
        match self {
            UsageError::Missing => {
                line.append(": missing performance level");
            },
            UsageError::InvalidLevel(arg) => {
                line.append(": invalid performance level: ");
                append_escaped(&mut line, arg.as_slice());
            },
            UsageError::ExtraArgument(arg) => {
                line.append(": invalid argument: ");
                append_escaped(&mut line, arg.as_slice());
            },
        }
        line
    }

    /// Everything that is said about this error, in the order in which it is
    /// said: the diagnostic, then the usage message.
    pub fn report(&self, program: &str) -> (lines: Vec<String>)
        ensures
            lines@.len() == 2,
            lines@[0]@ == self@.message(program@),
            lines@[1]@ == usage_text(program@),
    {
        let mut lines: Vec<String> = Vec::new();
        lines.push(self.message(program));
        lines.push(usage(program));
        lines
    }
}

/// A command line names a level exactly when it is one argument that is one
/// of the words `low`, `auto` and `high`, and then the level is that word's.
/// Every other command line is a usage error: none, two or more arguments,
/// or a single argument that differs from all three words in any byte.
pub proof fn only_the_three_words_are_accepted(args: Seq<Seq<u8>>, level: PerfLevel)
    ensures
        verdict(args) === Ok(level) <==> args == seq![level.contents()],
        verdict(args) is Err <==> !(args.len() == 1 && (args[0] == PerfLevel::Low.contents()
            || args[0] == PerfLevel::Auto.contents() || args[0] == PerfLevel::High.contents())),
{
    if args.len() == 1 {
        crate::level::token_round_trip(level, args[0]);
        assert(args =~= seq![args[0]]);
    }
}

} // verus!

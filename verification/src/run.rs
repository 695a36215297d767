//! A whole run, as a function of what the system answers.
//!
//! A run reads the level off the command line, lists the class directory and
//! sweeps over its entries. It fails if the command line names no level, or
//! if the class directory cannot be listed; in both cases nothing is
//! written. A run that got as far as the sweep succeeds, whatever becomes of
//! its devices.
//!
//! A program asks the system as it goes and decides with [`parse_args`],
//! [`target`](crate::sweep::target) and
//! [`write_for`](crate::sweep::write_for). Here the answers are given
//! beforehand, and the run is those same decisions in the same order: that
//! makes a run a value, of which laws can be stated and which tests can
//! compare.

use vstd::prelude::*;
use vstd::string::*;

use crate::args::{parse_args, usage_text, verdict, UsageError, UsageErrorView};
use crate::report::{error_line, error_text};
use crate::sweep::{plan, planned, Entry, EntryView, Write, WriteView, CLASS_DIR};

verus! {

/// Why a run failed.
#[derive(Debug, Clone, PartialEq, Eq)]
pub enum RunError {
    /// The command line names no level.
    Usage(UsageError),
    /// The class directory could not be listed; holds the system's words for
    /// the error.
    Unlisted(String),
}

/// A `RunError` as a mathematical value.
pub enum RunErrorView {
    Usage(UsageErrorView),
    Unlisted(Seq<char>),
}

impl View for RunError {
    type V = RunErrorView;

    open spec fn view(&self) -> RunErrorView {
        match self {
            RunError::Usage(error) => RunErrorView::Usage(error@),
            RunError::Unlisted(error) => RunErrorView::Unlisted(error@),
        }
    }
}

impl RunErrorView {
    /// The lines that tell of the failure, in order. A usage error is told in
    /// its diagnostic and the usage message; a class directory that cannot be
    /// listed, in the one diagnostic for the system's error.
    pub open spec fn report(self, program: Seq<char>) -> Seq<Seq<char>> {
        match self {
            RunErrorView::Usage(error) => seq![error.message(program), usage_text(program)],
            RunErrorView::Unlisted(error) => seq![error_text(program, CLASS_DIR@, error)],
        }
    }
}

impl RunError {
    /// The lines that tell of the failure, in order, each without a line end.
    pub fn report(&self, program: &str) -> (lines: Vec<String>)
        ensures
            lines.deep_view() == self@.report(program@),
    {
        let lines = match self {
            RunError::Usage(error) => error.report(program),
            RunError::Unlisted(error) => {
                let mut lines: Vec<String> = Vec::new();
                lines.push(error_line(program, CLASS_DIR, error.as_str()));
                lines
            },
        };
        assert(lines.deep_view() =~= self@.report(program@));
        lines
    }
}

/// What a run comes to: the writes of its sweep, or why it failed. The
/// listing holds the entries of the class directory or, where it cannot be
/// listed, the system's words for the error.
///
/// The command line is judged first: with a usage error the listing plays no
/// part.
pub open spec fn outcome(
    args: Seq<Seq<u8>>,
    listing: Result<Seq<EntryView>, Seq<char>>,
) -> Result<Seq<WriteView>, RunErrorView> {
    match verdict(args) {
        Err(fault) => Err(RunErrorView::Usage(fault)),
        Ok(level) => match listing {
            Err(error) => Err(RunErrorView::Unlisted(error)),
            Ok(entries) => Ok(planned(level, entries)),
        },
    }
}

/// The listing as a mathematical value.
pub open spec fn listing_view(listing: Result<&[Entry], String>) -> Result<
    Seq<EntryView>,
    Seq<char>,
> {
    match listing {
        Ok(entries) => Ok(entries.deep_view()),
        Err(error) => Err(error@),
    }
}

/// The run for the given command line and listing of the class directory:
/// the writes to make, in order, or the failure.
///
/// The run succeeds exactly when the command line names a level and the
/// class directory was listed. A failed run writes nothing.
pub fn run(args: &[Vec<u8>], listing: Result<&[Entry], String>) -> (result: Result<
    Vec<Write>,
    RunError,
>)
    ensures
        match result {
            Ok(writes) => outcome(args.deep_view(), listing_view(listing)) === Ok(
                writes.deep_view(),
            ),
            Err(error) => outcome(args.deep_view(), listing_view(listing)) === Err(error@),
        },
        result is Ok <==> verdict(args.deep_view()) is Ok && listing is Ok,
{
    match parse_args(args) {
        Err(error) => Err(RunError::Usage(error)),
        Ok(level) => match listing {
            Err(error) => Err(RunError::Unlisted(error)),
            Ok(entries) => Ok(plan(level, entries)),
        },
    }
}

/// A run that cannot read a level off its command line fails with the usage
/// error and writes nothing, whatever the class directory holds; so does a
/// run that cannot list the class directory, whatever level was asked for.
/// Every other run succeeds with the writes of its sweep.
pub proof fn run_fails_without_level_or_listing(
    args: Seq<Seq<u8>>,
    listing: Result<Seq<EntryView>, Seq<char>>,
)
    ensures
        verdict(args) is Err ==> outcome(args, listing) === Err(
            RunErrorView::Usage(verdict(args)->Err_0),
        ),
        verdict(args) is Ok && listing is Err ==> outcome(args, listing) === Err(
            RunErrorView::Unlisted(listing->Err_0),
        ),
        verdict(args) is Ok && listing is Ok ==> outcome(args, listing) === Ok(
            planned(verdict(args)->Ok_0, listing->Ok_0),
        ),
{
}

/// A run that fails for its command line says so and ends on the usage
/// message.
pub proof fn usage_failure_ends_on_usage_message(
    args: Seq<Seq<u8>>,
    listing: Result<Seq<EntryView>, Seq<char>>,
    program: Seq<char>,
)
    requires
        verdict(args) is Err,
    ensures
        outcome(args, listing) is Err,
        outcome(args, listing)->Err_0.report(program).last() == usage_text(program),
{
}

} // verus!

//! What can go wrong while routes and covers are changed.

use vstd::prelude::*;
use crate::reading::{a_numeral_reads_back, a_signed_numeral_reads_back, all_digits, number};
use crate::text::{numeral, push_numeral, push_signed, signed_numeral};

verus! {

/// A routing operation that did not happen.
#[derive(Debug, Clone, PartialEq, Eq)]
pub enum RoutingError {
    /// A route or a firewall cover could not be put in place or taken away.
    RouteSetup(String),
    /// The upstream gateway could not be determined. Holds the sentence for the
    /// user.
    Gateway(String),
}

/// [`RoutingError`] with its text as characters.
pub enum RoutingErrorView {
    RouteSetup(Seq<char>),
    Gateway(Seq<char>),
}

impl View for RoutingError {
    type V = RoutingErrorView;

    open spec fn view(&self) -> RoutingErrorView {
        match self {
            RoutingError::RouteSetup(s) => RoutingErrorView::RouteSetup(s@),
            RoutingError::Gateway(s) => RoutingErrorView::Gateway(s@),
        }
    }
}

impl RoutingErrorView {
    pub open spec fn text(self) -> Seq<char> {
        match self {
            RoutingErrorView::RouteSetup(s) => s,
            RoutingErrorView::Gateway(s) => s,
        }
    }
}

impl RoutingError {
    /// The error as text.
    pub fn message(&self) -> (r: String)
        ensures
            r@ == self@.text(),
    {
        match self {
            RoutingError::RouteSetup(s) => s.clone(),
            RoutingError::Gateway(s) => s.clone(),
        }
    }
}

/// The outcome of an operation that yields nothing, with its error as a view.
pub open spec fn outcome_view(r: Result<(), RoutingError>) -> Result<(), RoutingErrorView> {
    match r {
        Ok(()) => Ok(()),
        Err(e) => Err(e@),
    }
}

/// Why one command did not do its work.
#[derive(Debug, Clone, PartialEq, Eq)]
pub enum CommandFailure {
    /// It could not be started; the operating system's words.
    Spawn(String),
    /// It ran and exited with this code, `-1` where it had none.
    Exit(i32),
}

impl CommandFailure {
    pub open spec fn text(self) -> Seq<char> {
        match self {
            CommandFailure::Spawn(e) => "failed to start: "@ + e@,
            CommandFailure::Exit(code) => "exited with code "@ + signed_numeral(code as int),
        }
    }

    /// The failure as text.
    pub fn message(&self) -> (r: String)
        ensures
            r@ == self.text(),
    {
        match self {
            CommandFailure::Spawn(e) => {
                let mut out = "failed to start: ".to_owned();
                out.append(e.as_str());
                out
            }
            CommandFailure::Exit(code) => {
                let mut out = "exited with code ".to_owned();
                push_signed(&mut out, *code);
                out
            }
        }
    }
}

/// The fatal command that ended a setup phase.
#[derive(Debug, Clone, PartialEq, Eq)]
pub struct RouteCommandError {
    /// The program that was run.
    pub program: String,
    /// Its place in the phase, counted from zero.
    pub index: usize,
    /// How many commands the phase had.
    pub total: usize,
    pub failure: CommandFailure,
}

impl RouteCommandError {
    pub open spec fn text(self) -> Seq<char> {
        self.program@ + " (command "@ + numeral(self.index as nat, 10) + " of "@ + numeral(self.total as nat, 10)
            + ", counted from 0) "@ + self.failure.text()
    }

    /// The error as text.
    pub fn message(&self) -> (r: String)
        ensures
            r@ == self.text(),
    {
        let mut out = self.program.clone();
        out.append(" (command ");
        push_numeral(&mut out, self.index as u64, 10);
        out.append(" of ");
        push_numeral(&mut out, self.total as u64, 10);
        out.append(", counted from 0) ");
        out.append(self.failure.message().as_str());
        out
    }
}

/// What a finished command left behind, its streams decoded to text.
#[derive(Debug, Clone, PartialEq, Eq)]
pub struct CommandOutput {
    /// The exit status counts as success.
    pub success: bool,
    /// The exit code, where the command exited by itself.
    pub code: Option<i32>,
    pub stdout: String,
    pub stderr: String,
}

/// Text starts with this.
pub open spec fn starts_with(s: Seq<char>, a: Seq<char>) -> bool {
    s.len() >= a.len() && s.subrange(0, a.len() as int) == a
}

/// Text ends with this.
pub open spec fn ends_with(s: Seq<char>, b: Seq<char>) -> bool {
    s.len() >= b.len() && s.subrange(s.len() - b.len(), s.len() as int) == b
}

/// A routing error reads as its own words and nothing else, of either kind.
pub proof fn a_routing_error_reads_as_its_words(words: Seq<char>)
    ensures
        RoutingErrorView::RouteSetup(words).text() == words,
        RoutingErrorView::Gateway(words).text() == words,
{
}

/// A failure tells the operating system's words in full, or the exit code, a negative
/// one with its sign.
pub proof fn a_failure_tells_its_cause(f: CommandFailure)
    ensures
        match f {
            CommandFailure::Spawn(e) => ends_with(f.text(), e@) && starts_with(f.text(), "failed to start: "@) && f.text().len()
                == 17 + e@.len(),
            CommandFailure::Exit(code) => {
                let digits = f.text().skip(17);
                &&& starts_with(f.text(), "exited with code "@)
                &&& code >= 0 ==> number(digits, 10) == code && all_digits(digits, 10)
                &&& code < 0 ==> digits[0] == '-' && number(digits.skip(1), 10) == -(code as int) && all_digits(
                    digits.skip(1),
                    10,
                )
            },
        },
{
    reveal_strlit("failed to start: ");
    reveal_strlit("exited with code ");
    match f {
        CommandFailure::Spawn(e) => {
            assert(f.text().subrange(0, 17) =~= "failed to start: "@);
            assert(f.text().subrange(17, f.text().len() as int) =~= e@);
        }
        CommandFailure::Exit(code) => {
            a_signed_numeral_reads_back(code as int);
            assert(f.text().subrange(0, 17) =~= "exited with code "@);
            assert(f.text().skip(17) =~= signed_numeral(code as int));
        }
    }
}

/// The error of a setup starts with the program, ends with its failure, and has the
/// command's place and the number of commands between them.
pub proof fn a_command_error_tells_which_command(e: RouteCommandError)
    ensures
        starts_with(e.text(), e.program@),
        ends_with(e.text(), e.failure.text()),
        exists|place: Seq<char>, total: Seq<char>|
            {
                &&& e.text() == e.program@ + " (command "@ + place + " of "@ + total + ", counted from 0) "@
                    + e.failure.text()
                &&& #[trigger] number(place, 10) == e.index && all_digits(place, 10)
                &&& #[trigger] number(total, 10) == e.total && all_digits(total, 10)
            },
{
    let place = numeral(e.index as nat, 10);
    let total = numeral(e.total as nat, 10);
    a_numeral_reads_back(e.index as nat, 10);
    a_numeral_reads_back(e.total as nat, 10);
    let t = e.text();
    assert(t.subrange(0, e.program@.len() as int) =~= e.program@);
    assert(t.subrange(t.len() - e.failure.text().len(), t.len() as int) =~= e.failure.text());
}

} // verus!

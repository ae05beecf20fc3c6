//! The one kind of failure that this layer reports.

use vstd::prelude::*;
use vstd::std_specs::convert::FromSpecImpl;
use vstd::string::StringExecFns;

verus! {

/// A description that the engine could not parse. It carries the engine's
/// diagnostic, rendered as text; whatever went wrong in parsing, this is the
/// error that the host is given.
#[derive(Debug)]
pub struct ParserError(String);

impl View for ParserError {
    type V = Seq<char>;

    /// The engine's diagnostic.
    closed spec fn view(&self) -> Seq<char> {
        self.0@
    }
}

impl From<String> for ParserError {
    fn from(diagnostic: String) -> (error: ParserError)
        ensures
            error@ == diagnostic@,
    {
        ParserError(diagnostic)
    }
}

impl FromSpecImpl<String> for ParserError {
    open spec fn obeys_from_spec() -> bool {
        true
    }

    closed spec fn from_spec(diagnostic: String) -> ParserError {
        ParserError(diagnostic)
    }
}

/// The message that the host is shown for a diagnostic of the engine.
pub open spec fn message_of(diagnostic: Seq<char>) -> Seq<char> {
    "could not parse expression:\n"@ + diagnostic
}

impl ParserError {
    /// The engine's diagnostic, as it was given.
    pub fn diagnostic(&self) -> (diagnostic: &str)
        ensures
            diagnostic@ == self@,
    {
        self.0.as_str()
    }

    /// The message for the host: a heading, then the engine's diagnostic on
    /// the lines below it.
    pub fn message(&self) -> (message: String)
        ensures
            message@ == message_of(self@),
    {
        String::from_str("could not parse expression:\n").concat(self.0.as_str())
    }
}

} // verus!

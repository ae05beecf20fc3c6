//! The three states of a time domain and the tokens that name them.

use vstd::prelude::*;
use vstd::std_specs::convert::FromSpecImpl;
use vstd::string::StringExecFns;

verus! {

/// What the engine says of a domain at one instant.
#[derive(Clone, Copy, Debug, PartialEq, Eq, Structural)]
pub enum RuleKind {
    Open,
    Closed,
    Unknown,
}

/// The state of a time domain as the host sees it.
#[derive(Clone, Copy, Debug, PartialEq, Eq, Structural)]
pub enum State {
    Open,
    Closed,
    Unknown,
}

impl From<RuleKind> for State {
    fn from(kind: RuleKind) -> (state: State)
        ensures
            state == State::of_kind(kind),
    {
        match kind {
            RuleKind::Open => State::Open,
            RuleKind::Closed => State::Closed,
            RuleKind::Unknown => State::Unknown,
        }
    }
}

impl FromSpecImpl<RuleKind> for State {
    open spec fn obeys_from_spec() -> bool {
        true
    }

    open spec fn from_spec(kind: RuleKind) -> State {
        State::of_kind(kind)
    }
}

impl State {
    /// The state that an answer of the engine stands for.
    pub open spec fn of_kind(kind: RuleKind) -> State {
        match kind {
            RuleKind::Open => State::Open,
            RuleKind::Closed => State::Closed,
            RuleKind::Unknown => State::Unknown,
        }
    }

    /// The token that names this state.
    pub open spec fn token(self) -> Seq<char> {
        match self {
            State::Open => "open"@,
            State::Closed => "closed"@,
            State::Unknown => "unknown"@,
        }
    }

    /// The state that a token names, if it names one.
    pub open spec fn of_token(token: Seq<char>) -> Option<State> {
        if token == "open"@ {
            Some(State::Open)
        } else if token == "closed"@ {
            Some(State::Closed)
        } else if token == "unknown"@ {
            Some(State::Unknown)
        } else {
            None
        }
    }

    /// Encodes the state as its token.
    pub fn as_str(&self) -> (token: &'static str)
        ensures
            token@ == self.token(),
    {
        match self {
            State::Open => "open",
            State::Closed => "closed",
            State::Unknown => "unknown",
        }
    }

    /// Decodes a token. Any text other than the three tokens names no state.
    pub fn from_token(token: &str) -> (state: Option<State>)
        ensures
            state == State::of_token(token@),
    {
        let given = String::from_str(token);
        if given == String::from_str("open") {
            Some(State::Open)
        } else if given == String::from_str("closed") {
            Some(State::Closed)
        } else if given == String::from_str("unknown") {
            Some(State::Unknown)
        } else {
            None
        }
    }

    pub fn is_open(&self) -> (open: bool)
        ensures
            open == (*self == State::Open),
    {
        matches!(self, State::Open)
    }

    pub fn is_closed(&self) -> (closed: bool)
        ensures
            closed == (*self == State::Closed),
    {
        matches!(self, State::Closed)
    }

    pub fn is_unknown(&self) -> (unknown: bool)
        ensures
            unknown == (*self == State::Unknown),
    {
        matches!(self, State::Unknown)
    }
}

/// The three tokens differ from one another, so a state is found again from
/// its token: decoding what was encoded gives the state that was encoded.
pub proof fn lemma_token_round_trip(state: State)
    ensures
        State::of_token(state.token()) == Some(state),
{
    reveal_strlit("open");
    reveal_strlit("closed");
    reveal_strlit("unknown");
    assert("open"@.len() == 4);
    assert("closed"@.len() == 6);
    assert("unknown"@.len() == 7);
}

/// A token is decoded to a state only if it is that state's own token.
pub proof fn lemma_of_token_inverts_token(token: Seq<char>, state: State)
    requires
        State::of_token(token) == Some(state),
    ensures
        state.token() == token,
{
}

/// Whatever the engine answers, the state decoded from it is exactly one of
/// open, closed and unknown, and it is the one that the answer names.
pub proof fn lemma_exactly_one_state(kind: RuleKind)
    ensures
        ({
            let state = State::of_kind(kind);
            &&& (state == State::Open) <==> kind == RuleKind::Open
            &&& (state == State::Closed) <==> kind == RuleKind::Closed
            &&& (state == State::Unknown) <==> kind == RuleKind::Unknown
            &&& state == State::Open || state == State::Closed || state == State::Unknown
            &&& !(state == State::Open && state == State::Closed)
            &&& !(state == State::Open && state == State::Unknown)
            &&& !(state == State::Closed && state == State::Unknown)
        }),
{
}

} // verus!

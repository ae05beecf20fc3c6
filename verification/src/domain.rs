//! The domain handle: the owner of a parsed time domain, and the entry to
//! the queries on it.
//!
//! The engine parses and evaluates. What it parsed is held here and shared
//! with every stream drawn from it; what it is asked, and when, is decided
//! here.

use crate::datetime::NaiveDateTimeWrapper;
use crate::errors::ParserError;
use crate::range::RangeIterator;
use std::sync::Arc;
use vstd::prelude::*;

verus! {

/// A parsed time domain, of the engine's type `D`. It is never changed once
/// parsed, and it lasts until the handle and every stream drawn from it are
/// gone.
pub struct TimeDomain<D> {
    inner: Arc<D>,
}

impl<D> View for TimeDomain<D> {
    type V = D;

    /// The parsed domain.
    closed spec fn view(&self) -> D {
        *self.inner
    }
}

/// `Arc::clone`: one more pointer to the same value.
#[verifier::external_body]
fn share<D>(td: &Arc<D>) -> (shared: Arc<D>)
    ensures
        shared == td,
{
    Arc::clone(td)
}

/// Whether a description is valid: it is where the engine parsed it, and
/// only there.
pub fn validate<D>(parsed: &Result<D, String>) -> (valid: bool)
    ensures
        valid == (parsed is Ok),
{
    parsed.is_ok()
}

/// The instant to ask about where the caller names one or leaves it out:
/// the one named, or else `now`.
pub fn resolve_time(datetime: Option<NaiveDateTimeWrapper>, now: NaiveDateTimeWrapper) -> (time:
    NaiveDateTimeWrapper)
    ensures
        time == match datetime {
            Some(given) => given,
            None => now,
        },
{
    match datetime {
        Some(given) => given,
        None => now,
    }
}

/// The instant to ask about where the caller names one or leaves it out:
/// the one named, or else what the local wall clock shows at this call. The
/// clock is read only where no instant is named.
pub fn get_time(datetime: Option<NaiveDateTimeWrapper>) -> (time: NaiveDateTimeWrapper)
    ensures
        datetime matches Some(given) ==> time == given,
        time@.is_valid(),
{
    match datetime {
        Some(given) => {
            proof {
                use_type_invariant(given);
            }
            given
        },
        None => NaiveDateTimeWrapper::now(),
    }
}

impl<D> TimeDomain<D> {
    /// Makes the handle of what the engine's parser gave for a description:
    /// the owner of the domain where it parsed one, and the error for the
    /// host, with the engine's diagnostic, where it did not.
    pub fn new(parsed: Result<D, String>) -> (made: Result<Self, ParserError>)
        ensures
            match parsed {
                Ok(domain) => made matches Ok(handle) && handle@ == domain,
                Err(diagnostic) => made matches Err(error) && error@ == diagnostic@,
            },
    {
        match parsed {
            Ok(domain) => Ok(TimeDomain { inner: Arc::new(domain) }),
            Err(diagnostic) => Err(ParserError::from(diagnostic)),
        }
    }

    /// The parsed domain, for the engine to evaluate.
    pub fn inner(&self) -> (inner: &Arc<D>)
        ensures
            **inner == self@,
    {
        &self.inner
    }

    /// A stream of the intervals of this domain from `start` on, or from
    /// now on where no start is named; up to `end`, or without end where no
    /// end is named. The stream shares the domain with this handle.
    pub fn intervals(
        &self,
        start: Option<NaiveDateTimeWrapper>,
        end: Option<NaiveDateTimeWrapper>,
    ) -> (stream: RangeIterator<D>)
        ensures
            stream@.domain == self@,
            start matches Some(given) ==> stream@.query.start() == given,
            stream@.query.end() == end,
            !stream@.exhausted,
    {
        RangeIterator::new(share(&self.inner), get_time(start), end)
    }
}

/// A description is valid exactly where a handle can be made of it: the test
/// and the construction agree on every outcome of the parser.
pub proof fn lemma_validate_agrees_with_new<D>(parsed: Result<D, String>, valid: bool, made: Result<
    TimeDomain<D>,
    ParserError,
>)
    requires
        valid == (parsed is Ok),
        match parsed {
            Ok(domain) => made matches Ok(handle) && handle@ == domain,
            Err(diagnostic) => made matches Err(error) && error@ == diagnostic@,
        },
    ensures
        valid <==> made is Ok,
        !valid <==> made is Err,
{
}

} // verus!

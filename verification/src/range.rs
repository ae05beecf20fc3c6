//! The range stream: a single pass over the intervals that the engine finds
//! from a start instant on, up to an end instant or without end.
//!
//! The engine walks its own iterator; the stream holds the domain that the
//! iterator reads, says which iterator to open, and turns each step of it
//! into the record that the host is given.

use crate::calendar::{lemma_before_transitive, Instant};
use crate::datetime::NaiveDateTimeWrapper;
use crate::state::{RuleKind, State};
use std::sync::Arc;
use vstd::prelude::*;

verus! {

/// One step of the engine's iterator: a span of time over which the state of
/// the domain stays the same, with the comments attached to it.
#[derive(Debug)]
pub struct DateTimeRange {
    pub start: NaiveDateTimeWrapper,
    pub end: NaiveDateTimeWrapper,
    pub kind: RuleKind,
    pub comments: Vec<String>,
}

/// The iterator of the engine that a stream reads.
#[derive(Clone, Copy, Debug, PartialEq, Eq, Structural)]
pub enum RangeQuery {
    /// Every interval from `start` on, without end.
    From { start: NaiveDateTimeWrapper },
    /// The intervals of the window from `start` up to `end`.
    Range { start: NaiveDateTimeWrapper, end: NaiveDateTimeWrapper },
}

impl RangeQuery {
    /// The instant from which the intervals are wanted.
    pub open spec fn start(self) -> NaiveDateTimeWrapper {
        match self {
            RangeQuery::From { start } => start,
            RangeQuery::Range { start, .. } => start,
        }
    }

    /// The instant up to which the intervals are wanted, if there is one.
    pub open spec fn end(self) -> Option<NaiveDateTimeWrapper> {
        match self {
            RangeQuery::From { .. } => None,
            RangeQuery::Range { end, .. } => Some(end),
        }
    }
}

/// A stream of the intervals of one domain. It shares the domain with the
/// handle that it was drawn from, so the domain lasts as long as the stream.
pub struct RangeIterator<D> {
    td: Arc<D>,
    query: RangeQuery,
    exhausted: bool,
}

/// What a stream is, to its callers.
pub struct RangeIteratorView<D> {
    /// The domain that the stream reads.
    pub domain: D,
    /// The iterator of the engine that feeds it.
    pub query: RangeQuery,
    /// Whether the engine's iterator has ended.
    pub exhausted: bool,
}

impl<D> View for RangeIterator<D> {
    type V = RangeIteratorView<D>;

    closed spec fn view(&self) -> RangeIteratorView<D> {
        RangeIteratorView { domain: *self.td, query: self.query, exhausted: self.exhausted }
    }
}

/// The iterator to open for a start and an end that may be absent: with an
/// end the window up to it, without one everything from the start on.
pub open spec fn query_of(
    start: NaiveDateTimeWrapper,
    end: Option<NaiveDateTimeWrapper>,
) -> RangeQuery {
    match end {
        Some(end) => RangeQuery::Range { start, end },
        None => RangeQuery::From { start },
    }
}

/// The record that the host is given for a step of the engine's iterator:
/// its two bounds, the state that its kind stands for, and its comments.
pub open spec fn record_of(step: DateTimeRange) -> (
    NaiveDateTimeWrapper,
    NaiveDateTimeWrapper,
    State,
    Vec<String>,
) {
    (step.start, step.end, State::of_kind(step.kind), step.comments)
}

/// Whether the steps lie end to end from `start` to `end`: the first begins
/// at `start`, each ends after it began and where the next begins, and the
/// last ends at `end`. Such steps cover the window without a gap and without
/// an overlap.
pub open spec fn tiles(steps: Seq<DateTimeRange>, start: Instant, end: Instant) -> bool {
    &&& steps.len() > 0
    &&& steps[0].start@ == start
    &&& steps[steps.len() - 1].end@ == end
    &&& forall|i: int| 0 <= i < steps.len() ==> (#[trigger] steps[i]).start@.before(steps[i].end@)
    &&& forall|i: int, j: int|
        0 <= i && j == i + 1 && j < steps.len() ==> (#[trigger] steps[i]).end@ == (
        #[trigger] steps[j]).start@
}

impl<D> RangeIterator<D> {
    /// A stream over `td` from `start` on, up to `end` where one is given.
    /// Nothing has been drawn from it yet.
    pub fn new(td: Arc<D>, start: NaiveDateTimeWrapper, end: Option<NaiveDateTimeWrapper>) -> (stream:
        Self)
        ensures
            stream@.domain == *td,
            stream@.query == query_of(start, end),
            !stream@.exhausted,
    {
        let query = match end {
            Some(end) => RangeQuery::Range { start, end },
            None => RangeQuery::From { start },
        };
        RangeIterator { td, query, exhausted: false }
    }

    /// The domain that the stream reads and keeps alive.
    pub fn domain(&self) -> (td: &Arc<D>)
        ensures
            **td == self@.domain,
    {
        &self.td
    }

    /// The iterator of the engine that feeds the stream.
    pub fn query(&self) -> (query: RangeQuery)
        ensures
            query == self@.query,
    {
        self.query
    }

    /// Whether the stream has ended. A stream that has ended gives nothing
    /// more, and the engine's iterator need not be asked again.
    pub fn is_exhausted(&self) -> (exhausted: bool)
        ensures
            exhausted == self@.exhausted,
    {
        self.exhausted
    }

    /// Takes what the engine's iterator gave for one pull and gives the
    /// record for the host.
    ///
    /// A step becomes its record and leaves the stream as it was. The end of
    /// the engine's iterator ends the stream, for good: from then on nothing
    /// is given, whatever is handed in.
    pub fn next(&mut self, step: Option<DateTimeRange>) -> (record: Option<
        (NaiveDateTimeWrapper, NaiveDateTimeWrapper, State, Vec<String>),
    >)
        ensures
            final(self)@.domain == old(self)@.domain,
            final(self)@.query == old(self)@.query,
            final(self)@.exhausted == (old(self)@.exhausted || step is None),
            record == if old(self)@.exhausted {
                None
            } else {
                match step {
                    Some(step) => Some(record_of(step)),
                    None => None,
                }
            },
    {
        if self.exhausted {
            return None;
        }
        match step {
            Some(step) => Some((step.start, step.end, State::from(step.kind), step.comments)),
            None => {
                self.exhausted = true;
                None
            },
        }
    }
}

/// A query is known by its start and its end: the one made of them has
/// them, and no other has.
pub proof fn lemma_query_by_bounds(query: RangeQuery)
    ensures
        query == query_of(query.start(), query.end()),
{
}

/// Up to any step of steps that lie end to end from `start`, time only moves
/// on: the step begins at `start` or after it.
proof fn lemma_tiles_reach(steps: Seq<DateTimeRange>, start: Instant, end: Instant, i: int)
    requires
        tiles(steps, start, end),
        0 <= i < steps.len(),
    ensures
        start.at_or_before(steps[i].start@),
    decreases i,
{
    if i > 0 {
        lemma_tiles_reach(steps, start, end, i - 1);
        assert(steps[i - 1].start@.before(steps[i - 1].end@));
        assert(steps[i - 1].end@ == steps[i].start@);
    }
}

/// From any step of steps that lie end to end up to `end`, time only moves
/// on: the step ends at `end` or before it.
proof fn lemma_tiles_remain(steps: Seq<DateTimeRange>, start: Instant, end: Instant, i: int)
    requires
        tiles(steps, start, end),
        0 <= i < steps.len(),
    ensures
        steps[i].end@.at_or_before(end),
    decreases steps.len() - i,
{
    if i < steps.len() - 1 {
        lemma_tiles_remain(steps, start, end, i + 1);
        assert(steps[i + 1].start@.before(steps[i + 1].end@));
        assert(steps[i].end@ == steps[i + 1].start@);
    }
}

/// Of two steps of steps that lie end to end, the earlier begins before the
/// later.
proof fn lemma_tiles_ordered(steps: Seq<DateTimeRange>, start: Instant, end: Instant, i: int, j: int)
    requires
        tiles(steps, start, end),
        0 <= i < j < steps.len(),
    ensures
        steps[i].start@.before(steps[j].start@),
    decreases j - i,
{
    assert(steps[j - 1].start@.before(steps[j - 1].end@));
    assert(steps[j - 1].end@ == steps[j].start@);
    if i < j - 1 {
        lemma_tiles_ordered(steps, start, end, i, j - 1);
        lemma_before_transitive(steps[i].start@, steps[j - 1].start@, steps[j].start@);
    }
}

/// Where the steps of the engine's iterator lie end to end from `start` to
/// `end`, every record made of them lies within the window, begins before it
/// ends, and begins after every record made before it.
pub proof fn lemma_records_within_window(steps: Seq<DateTimeRange>, start: Instant, end: Instant)
    requires
        tiles(steps, start, end),
    ensures
        forall|i: int|
            0 <= i < steps.len() ==> {
                let record = record_of(#[trigger] steps[i]);
                &&& start.at_or_before(record.0@)
                &&& record.0@.before(record.1@)
                &&& record.1@.at_or_before(end)
            },
        forall|i: int, j: int|
            0 <= i < j < steps.len() ==> record_of(#[trigger] steps[i]).0@.before(
                record_of(#[trigger] steps[j]).0@,
            ),
{
    assert forall|i: int| 0 <= i < steps.len() implies {
        let record = record_of(#[trigger] steps[i]);
        &&& start.at_or_before(record.0@)
        &&& record.0@.before(record.1@)
        &&& record.1@.at_or_before(end)
    } by {
        lemma_tiles_reach(steps, start, end, i);
        lemma_tiles_remain(steps, start, end, i);
    }
    assert forall|i: int, j: int| 0 <= i < j < steps.len() implies record_of(
        #[trigger] steps[i],
    ).0@.before(record_of(#[trigger] steps[j]).0@) by {
        lemma_tiles_ordered(steps, start, end, i, j);
    }
}

} // verus!

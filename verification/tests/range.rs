use opening_hours_py::{
    DateTimeRange, HostDateTime, NaiveDateTimeWrapper, RangeIterator, RangeQuery, RuleKind, State,
    TimeDomain,
};
use std::sync::Arc;

fn at(year: i32, month: u32, day: u32, hour: u32, minute: u32) -> NaiveDateTimeWrapper {
    NaiveDateTimeWrapper::new(year, month, day, hour, minute, 0, 0).unwrap()
}

fn step(
    start: NaiveDateTimeWrapper,
    end: NaiveDateTimeWrapper,
    kind: RuleKind,
    comments: &[&str],
) -> DateTimeRange {
    DateTimeRange { start, end, kind, comments: comments.iter().map(|c| c.to_string()).collect() }
}

#[test]
fn new_with_an_end_asks_for_the_window() {
    let start = at(2021, 1, 4, 8, 0);
    let end = at(2021, 1, 5, 8, 0);
    let stream = RangeIterator::new(Arc::new("schedule"), start, Some(end));
    assert_eq!(stream.query(), RangeQuery::Range { start, end });
    assert!(!stream.is_exhausted());
    assert_eq!(**stream.domain(), "schedule");
}

#[test]
fn new_without_an_end_asks_for_everything_from_the_start() {
    let start = at(2021, 1, 4, 8, 0);
    let stream = RangeIterator::new(Arc::new(7u8), start, None);
    assert_eq!(stream.query(), RangeQuery::From { start });
    assert!(!stream.is_exhausted());
}

#[test]
fn new_takes_an_end_before_the_start_as_it_is() {
    let start = at(2021, 1, 5, 8, 0);
    let end = at(2021, 1, 4, 8, 0);
    let stream = RangeIterator::new(Arc::new(()), start, Some(end));
    assert_eq!(stream.query(), RangeQuery::Range { start, end });
}

#[test]
fn next_gives_the_record_of_a_step() {
    let start = at(2021, 1, 4, 8, 0);
    let end = at(2021, 1, 4, 12, 0);
    let mut stream = RangeIterator::new(Arc::new(()), start, None);
    let record = stream.next(Some(step(start, end, RuleKind::Closed, &["lunch", "staff only"])));
    assert_eq!(
        record,
        Some((start, end, State::Closed, vec![String::from("lunch"), String::from("staff only")]))
    );
    assert!(!stream.is_exhausted());
    assert_eq!(stream.query(), RangeQuery::From { start });
}

#[test]
fn next_keeps_the_comments_in_their_order() {
    let start = at(2021, 1, 4, 8, 0);
    let end = at(2021, 1, 4, 12, 0);
    let mut stream = RangeIterator::new(Arc::new(()), start, None);
    let record = stream.next(Some(step(start, end, RuleKind::Unknown, &["b", "a", "b"]))).unwrap();
    assert_eq!(record.3, vec![String::from("b"), String::from("a"), String::from("b")]);
    assert_eq!(record.2, State::Unknown);
}

#[test]
fn next_ends_the_stream_with_the_engine_s_iterator() {
    let start = at(2021, 1, 4, 8, 0);
    let mut stream = RangeIterator::new(Arc::new(()), start, Some(at(2021, 1, 4, 9, 0)));
    assert_eq!(stream.next(None), None);
    assert!(stream.is_exhausted());
}

#[test]
fn a_stream_that_has_ended_gives_nothing_more() {
    let start = at(2021, 1, 4, 8, 0);
    let end = at(2021, 1, 4, 9, 0);
    let mut stream = RangeIterator::new(Arc::new(()), start, Some(end));
    assert_eq!(stream.next(None), None);
    assert_eq!(stream.next(Some(step(start, end, RuleKind::Open, &[]))), None);
    assert_eq!(stream.next(None), None);
    assert!(stream.is_exhausted());
    assert_eq!(stream.query(), RangeQuery::Range { start, end });
}

#[test]
fn an_unbounded_stream_over_an_always_open_domain_starts_open() {
    // "24/7" from some instant on: the engine gives one interval, open,
    // without comments, that reaches to the end of its calendar.
    let start = at(2021, 1, 4, 8, 0);
    let limit = at(10000, 1, 1, 0, 0);
    let handle = TimeDomain::new(Ok("24/7")).unwrap();
    let mut stream = handle.intervals(Some(start), None);
    assert_eq!(stream.query(), RangeQuery::From { start });
    let first = stream.next(Some(step(start, limit, RuleKind::Open, &[]))).unwrap();
    assert_eq!(first.2, State::Open);
    assert_eq!(first.2.as_str(), "open");
    assert!(first.3.is_empty());
    assert_eq!(
        first.0.to_host(),
        Some(HostDateTime { year: 2021, month: 1, day: 4, hour: 8, minute: 0, second: 0 })
    );
    assert_eq!(first.1.to_host(), None);
}

#[test]
fn a_bounded_stream_over_two_alternating_rules_gives_two_records() {
    // "Mo-Su 08:00-12:00 open; Mo-Su 12:00-18:00 unknown" over the window
    // from 08:00 to 18:00 of one day.
    let start = at(2021, 1, 4, 8, 0);
    let noon = at(2021, 1, 4, 12, 0);
    let end = at(2021, 1, 4, 18, 0);
    let handle = TimeDomain::new(Ok("two rules")).unwrap();
    let mut stream = handle.intervals(Some(start), Some(end));
    assert_eq!(stream.query(), RangeQuery::Range { start, end });

    let steps = vec![
        Some(step(start, noon, RuleKind::Open, &[])),
        Some(step(noon, end, RuleKind::Unknown, &["by appointment"])),
        None,
    ];
    let mut records = Vec::new();
    for given in steps {
        if let Some(record) = stream.next(given) {
            records.push(record);
        }
    }
    assert!(stream.is_exhausted());
    assert_eq!(records.len(), 2);

    assert_eq!(records[0].0, start);
    assert_eq!(records[0].1, noon);
    assert_eq!(records[0].2.as_str(), "open");
    assert!(records[0].3.is_empty());
    assert_eq!(records[1].0, noon);
    assert_eq!(records[1].1, end);
    assert_eq!(records[1].2.as_str(), "unknown");
    assert_eq!(records[1].3, vec![String::from("by appointment")]);

    assert_eq!(
        records[0].1.to_host(),
        Some(HostDateTime { year: 2021, month: 1, day: 4, hour: 12, minute: 0, second: 0 })
    );
    assert_eq!(
        records[1].1.to_host(),
        Some(HostDateTime { year: 2021, month: 1, day: 4, hour: 18, minute: 0, second: 0 })
    );
}

#[test]
fn records_of_steps_that_lie_end_to_end_stay_within_the_window() {
    let bounds = [
        at(2021, 1, 4, 0, 0),
        at(2021, 1, 4, 8, 0),
        at(2021, 1, 4, 12, 0),
        at(2021, 1, 4, 13, 30),
        at(2021, 1, 5, 0, 0),
    ];
    let start = bounds[0];
    let end = bounds[4];
    let mut stream = RangeIterator::new(Arc::new(()), start, Some(end));
    let mut earlier: Option<NaiveDateTimeWrapper> = None;
    for pair in bounds.windows(2) {
        let record = stream.next(Some(step(pair[0], pair[1], RuleKind::Open, &[]))).unwrap();
        assert!(start <= record.0);
        assert!(record.0 < record.1);
        assert!(record.1 <= end);
        if let Some(earlier) = earlier {
            assert!(earlier < record.0);
        }
        earlier = Some(record.0);
    }
}

#[test]
fn a_stream_keeps_its_domain_alive() {
    let handle = TimeDomain::new(Ok(String::from("24/7"))).unwrap();
    assert_eq!(Arc::strong_count(handle.inner()), 1);
    let first = handle.intervals(Some(at(2021, 1, 4, 8, 0)), None);
    let second = handle.intervals(Some(at(2021, 1, 5, 8, 0)), None);
    assert_eq!(Arc::strong_count(handle.inner()), 3);
    assert!(Arc::ptr_eq(handle.inner(), first.domain()));
    assert!(Arc::ptr_eq(handle.inner(), second.domain()));
    drop(handle);
    assert_eq!(Arc::strong_count(first.domain()), 2);
    assert_eq!(**first.domain(), "24/7");
    drop(first);
    assert_eq!(Arc::strong_count(second.domain()), 1);
    assert_eq!(**second.domain(), "24/7");
}

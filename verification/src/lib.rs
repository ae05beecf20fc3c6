//! Boundary layer between an opening-hours evaluation engine and a host
//! runtime with its own datetime type.
//!
//! The engine parses a textual description into a time domain and evaluates
//! it; this crate holds what stands between that engine and the host: the
//! conversion of datetimes in both directions, the vocabulary in which
//! states are handed to the host, the handle that owns a parsed domain, the
//! stream of intervals drawn from it, and the classification of parse
//! failures.

pub mod calendar;
pub mod datetime;
pub mod domain;
pub mod errors;
pub mod range;
pub mod state;

pub use calendar::Instant;
pub use datetime::{HostDateTime, NaiveDateTimeWrapper};
pub use domain::{get_time, resolve_time, validate, TimeDomain};
pub use errors::ParserError;
pub use range::{DateTimeRange, RangeIterator, RangeQuery};
pub use state::{RuleKind, State};

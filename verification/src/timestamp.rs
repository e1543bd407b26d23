//! Instants on the UTC time line, and the wall clock.

use chrono::Utc;
use vstd::prelude::*;

verus! {

/// An instant on the UTC time line: whole seconds since the Unix epoch and
/// the nanoseconds into that second, the two numbers `chrono` identifies a
/// `DateTime<Utc>` by.
#[derive(Debug, Clone, Copy, PartialEq, Eq, Default, Structural)]
pub struct Timestamp {
    /// Seconds since 1970-01-01T00:00:00Z; negative before it.
    pub secs: i64,
    /// Nanoseconds since the last whole second.
    pub nanos: u32,
}

/// Reads the wall clock with `chrono::Utc::now` and hands back the seconds
/// (`DateTime::timestamp`) and nanoseconds (`DateTime::timestamp_subsec_nanos`)
/// of the instant it returned. Nothing is promised of the result: it is
/// whatever the machine's clock says. `chrono` gives up on a clock that is set
/// before the Unix epoch.
#[verifier::external_body]
pub(crate) fn now() -> (sent_at: Timestamp) {
    let instant = Utc::now();
    Timestamp { secs: instant.timestamp(), nanos: instant.timestamp_subsec_nanos() }
}

/// The instant an event is taken to have happened at: the caller's own
/// timestamp where one was supplied, the send time otherwise.
pub open spec fn resolve_original(supplied: Option<Timestamp>, sent_at: Timestamp) -> Timestamp {
    match supplied {
        Some(instant) => instant,
        None => sent_at,
    }
}

/// Resolves the original timestamp of an event against its send time.
pub fn original_or(supplied: Option<Timestamp>, sent_at: Timestamp) -> (original: Timestamp)
    ensures
        original == resolve_original(supplied, sent_at),
{
    match supplied {
        Some(instant) => instant,
        None => sent_at,
    }
}

} // verus!

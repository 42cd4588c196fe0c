//! Instants, and the exact span between two of them.

use chrono::DateTime;
use vstd::prelude::*;

verus! {

/// Unix time of `-262143-01-01T00:00:00Z`, the first second chrono can hold
/// and so the first a [`Timestamp`] can hold.
pub const MIN_SECS: i64 = -8_334_601_228_800;

/// Unix time of `+262142-12-31T23:59:59Z`, the last second chrono can hold
/// and so the last a [`Timestamp`] can hold.
pub const MAX_SECS: i64 = 8_210_266_876_799;

/// Seconds in a day.
pub const SECS_PER_DAY: i64 = 86_400;

/// Nanoseconds in a second.
pub const NANOS_PER_SEC: u32 = 1_000_000_000;

/// Nanoseconds in an hour.
pub const NANOS_PER_HOUR: u64 = 3_600_000_000_000;

/// Whether `secs` and `nanos` give an instant that chrono can hold: a second
/// in its range, and nanoseconds into that second. A leap second is written
/// as a second of nanoseconds or more, and only at the end of a minute.
pub open spec fn valid_instant(secs: int, nanos: int) -> bool {
    &&& MIN_SECS <= secs <= MAX_SECS
    &&& 0 <= nanos < 2 * NANOS_PER_SEC
    &&& nanos >= NANOS_PER_SEC ==> secs % 60 == 59
}

/// The second that chrono counts for a leap second at one end of a span.
/// A leap second at `from` adds one second when `to` comes later in its day
/// than `from` does in its own; a leap second at `to` takes one off when
/// `from` comes later in its day than `to` does in its own. Between two
/// instants that are no leap seconds it is zero.
pub open spec fn leap_adjustment(to_secs: int, to_nanos: int, from_secs: int, from_nanos: int)
    -> int {
    if to_secs % (SECS_PER_DAY as int) > from_secs % (SECS_PER_DAY as int) && from_nanos
        >= NANOS_PER_SEC {
        1
    } else if to_secs % (SECS_PER_DAY as int) < from_secs % (SECS_PER_DAY as int) && to_nanos
        >= NANOS_PER_SEC {
        -1
    } else {
        0
    }
}

/// Nanoseconds from the instant `(from_secs, from_nanos)` to the instant
/// `(to_secs, to_nanos)`; negative when the second lies before the first.
/// Between two instants that are no leap seconds this is the plain difference.
pub open spec fn nanos_between(to_secs: int, to_nanos: int, from_secs: int, from_nanos: int)
    -> int {
    (to_secs - from_secs + leap_adjustment(to_secs, to_nanos, from_secs, from_nanos))
        * NANOS_PER_SEC + (to_nanos - from_nanos)
}

/// Between two instants that are no leap seconds the span is the plain
/// difference of the two readings of the clock.
pub proof fn lemma_span_without_leap_seconds(
    to_secs: int,
    to_nanos: int,
    from_secs: int,
    from_nanos: int,
)
    requires
        to_nanos < NANOS_PER_SEC,
        from_nanos < NANOS_PER_SEC,
    ensures
        nanos_between(to_secs, to_nanos, from_secs, from_nanos) == (to_secs * NANOS_PER_SEC
            + to_nanos) - (from_secs * NANOS_PER_SEC + from_nanos),
{
}

/// A point in time: seconds since the Unix epoch and nanoseconds into that second.
#[derive(Clone, Copy, Debug)]
pub struct Timestamp {
    secs: i64,
    nanos: u32,
}

impl Timestamp {
    #[verifier::type_invariant]
    spec fn inv(self) -> bool {
        valid_instant(self.secs as int, self.nanos as int)
    }

    /// Seconds since the Unix epoch.
    pub closed spec fn secs(self) -> int {
        self.secs as int
    }

    /// Nanoseconds since the last whole second.
    pub closed spec fn nanos(self) -> int {
        self.nanos as int
    }

    /// Nanoseconds from `earlier` to `self`.
    pub open spec fn spec_nanos_since(self, earlier: Timestamp) -> int {
        nanos_between(self.secs(), self.nanos(), earlier.secs(), earlier.nanos())
    }

    /// The instant `secs` seconds and `nanos` nanoseconds after the Unix
    /// epoch, or `None` when chrono cannot hold it.
    pub fn new(secs: i64, nanos: u32) -> (r: Option<Timestamp>)
        ensures
            r is Some <==> valid_instant(secs as int, nanos as int),
            r matches Some(t) ==> t.secs() == secs && t.nanos() == nanos,
    {
        if secs < MIN_SECS || secs > MAX_SECS {
            return None;
        }
        if nanos < NANOS_PER_SEC {
            return Some(Timestamp { secs, nanos });
        }
        let second_of_minute: i64 = (secs - MIN_SECS) % 60;
        if nanos - NANOS_PER_SEC < NANOS_PER_SEC && second_of_minute == 59 {
            Some(Timestamp { secs, nanos })
        } else {
            None
        }
    }

    /// Seconds since the Unix epoch.
    pub fn unix_seconds(&self) -> (r: i64)
        ensures
            r == self.secs(),
            valid_instant(r as int, self.nanos()),
    {
        proof {
            use_type_invariant(self);
        }
        self.secs
    }

    /// Nanoseconds since the last whole second.
    pub fn subsec_nanos(&self) -> (r: u32)
        ensures
            r == self.nanos(),
            valid_instant(self.secs(), r as int),
    {
        proof {
            use_type_invariant(self);
        }
        self.nanos
    }

    /// The span from `earlier` to `self` in nanoseconds; negative when
    /// `earlier` lies after `self`.
    pub fn nanos_since(&self, earlier: &Timestamp) -> (span: i128)
        ensures
            span == self.spec_nanos_since(*earlier),
    {
        proof {
            use_type_invariant(self);
            use_type_invariant(earlier);
        }
        let (seconds, nanos) = chrono_span_between(
            self.secs,
            self.nanos,
            earlier.secs,
            earlier.nanos,
        );
        (seconds as i128) * (NANOS_PER_SEC as i128) + (nanos as i128)
    }
}

/// Calls chrono: `DateTime::from_timestamp` for both instants, then
/// `DateTime::signed_duration_since`, and `TimeDelta::num_seconds` and
/// `TimeDelta::subsec_nanos` of the span.
///
/// Trusted: that chrono builds a value for every instant that
/// [`valid_instant`] admits, that the span it computes between two such
/// values is the difference of their seconds and nanoseconds with the
/// adjustment it makes for a leap second at either end, and that the whole
/// seconds and the nanoseconds it reports of a span add up to the span.
#[verifier::external_body]
fn chrono_span_between(to_secs: i64, to_nanos: u32, from_secs: i64, from_nanos: u32) -> (span: (
    i64,
    i32,
))
    requires
        valid_instant(to_secs as int, to_nanos as int),
        valid_instant(from_secs as int, from_nanos as int),
    ensures
        span.0 * NANOS_PER_SEC + span.1 == nanos_between(
            to_secs as int,
            to_nanos as int,
            from_secs as int,
            from_nanos as int,
        ),
{
    let to = DateTime::from_timestamp(to_secs, to_nanos).unwrap();
    let from = DateTime::from_timestamp(from_secs, from_nanos).unwrap();
    let span = to.signed_duration_since(from);
    (span.num_seconds(), span.subsec_nanos())
}

} // verus!

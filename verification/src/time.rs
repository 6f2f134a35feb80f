//! Points in time and signed spans of time, as chrono's `DateTime<Utc>` and
//! `TimeDelta` hold them, kept as plain integers so that contracts can speak
//! of them. The arithmetic itself is left to chrono.
use vstd::prelude::*;

verus! {

/// Nanoseconds in one second.
pub const NANOS_PER_SEC: u32 = 1_000_000_000;

/// The earliest second that a `DateTime<Utc>` can hold:
/// -262143-01-01T00:00:00Z, in seconds since the Unix epoch.
pub const MIN_TIMESTAMP_SECS: i64 = -8_334_601_228_800;

/// The latest second that a `DateTime<Utc>` can hold:
/// +262142-12-31T23:59:59Z, in seconds since the Unix epoch.
pub const MAX_TIMESTAMP_SECS: i64 = 8_210_266_876_799;

/// The largest span a `TimeDelta` can hold, in milliseconds; the smallest is
/// its negation.
pub const MAX_DELTA_MILLIS: i64 = 9_223_372_036_854_775_807;

/// A span of `secs` seconds and `nanos` nanoseconds, in nanoseconds.
pub open spec fn total_nanos(secs: int, nanos: int) -> int {
    secs * NANOS_PER_SEC + nanos
}

/// The largest span a `TimeDelta` can hold, in nanoseconds.
pub open spec fn max_delta_nanos() -> int {
    MAX_DELTA_MILLIS * 1_000_000
}

/// Whether `secs` seconds after the epoch plus `nanos` nanoseconds names a
/// point that a `DateTime<Utc>` can hold. A fraction of a second of one
/// billion nanoseconds or more marks a leap second, which only the last
/// second of a minute can carry.
pub open spec fn valid_timestamp(secs: int, nanos: int) -> bool {
    &&& MIN_TIMESTAMP_SECS <= secs <= MAX_TIMESTAMP_SECS
    &&& 0 <= nanos < 2 * NANOS_PER_SEC
    &&& nanos >= NANOS_PER_SEC ==> secs % 60 == 59
}

/// Whether a point `total` nanoseconds after the epoch, outside any leap
/// second, lies within the range of `DateTime<Utc>`.
pub open spec fn in_timestamp_range(total: int) -> bool {
    total_nanos(MIN_TIMESTAMP_SECS as int, 0) <= total
        && total < total_nanos(MAX_TIMESTAMP_SECS + 1, 0)
}

/// What `Timestamp::from_timestamp(secs, nsecs)` gives: the point `secs`
/// seconds and `nsecs` nanoseconds after the epoch, or `None` exactly when
/// `DateTime<Utc>` cannot hold it.
pub open spec fn is_from_timestamp_outcome(secs: i64, nsecs: u32, r: Option<Timestamp>) -> bool {
    &&& r is Some <==> valid_timestamp(secs as int, nsecs as int)
    &&& r matches Some(t) ==> t.spec_secs() == secs && t.spec_nanos() == nsecs
}

/// A point in time in UTC: whole seconds since 1970-01-01T00:00:00Z and the
/// nanoseconds into that second (one billion or more inside a leap second).
#[derive(Clone, Copy, Debug)]
pub struct Timestamp {
    secs: i64,
    nanos: u32,
}

impl Timestamp {
    #[verifier::type_invariant]
    spec fn well_formed(self) -> bool {
        valid_timestamp(self.secs as int, self.nanos as int)
    }

    /// Seconds since the epoch.
    pub closed spec fn spec_secs(&self) -> i64 {
        self.secs
    }

    /// Nanoseconds into the second.
    pub closed spec fn spec_nanos(&self) -> u32 {
        self.nanos
    }

    /// The point as nanoseconds since the epoch, for a point outside a leap
    /// second.
    pub open spec fn spec_total_nanos(&self) -> int {
        total_nanos(self.spec_secs() as int, self.spec_nanos() as int)
    }

    /// The point `secs` seconds after the epoch plus `nsecs` nanoseconds, as
    /// `DateTime::<Utc>::from_timestamp` accepts it: `None` exactly when
    /// `DateTime<Utc>` cannot hold it.
    pub fn from_timestamp(secs: i64, nsecs: u32) -> (r: Option<Timestamp>)
        ensures
            is_from_timestamp_outcome(secs, nsecs, r),
    {
        if secs < MIN_TIMESTAMP_SECS || secs > MAX_TIMESTAMP_SECS || nsecs >= 2 * NANOS_PER_SEC {
            return None;
        }
        if nsecs >= NANOS_PER_SEC {
            match secs.checked_rem_euclid(60) {
                Some(59) => {},
                _ => {
                    return None;
                },
            }
        }
        Some(Timestamp { secs, nanos: nsecs })
    }

    /// Whole seconds since the epoch.
    #[verifier::when_used_as_spec(spec_secs)]
    pub fn timestamp(&self) -> (r: i64)
        ensures
            r == self.spec_secs(),
            valid_timestamp(r as int, self.spec_nanos() as int),
    {
        proof {
            use_type_invariant(self);
        }
        self.secs
    }

    /// Nanoseconds into the second; one billion or more inside a leap second.
    #[verifier::when_used_as_spec(spec_nanos)]
    pub fn timestamp_subsec_nanos(&self) -> (r: u32)
        ensures
            r == self.spec_nanos(),
            valid_timestamp(self.spec_secs() as int, r as int),
    {
        proof {
            use_type_invariant(self);
        }
        self.nanos
    }
}

/// Two timestamps with the same seconds and nanoseconds are the same.
pub proof fn lemma_timestamp_ext(a: Timestamp, b: Timestamp)
    requires
        a.spec_secs() == b.spec_secs(),
        a.spec_nanos() == b.spec_nanos(),
    ensures
        a == b,
{
}

/// Two points outside leap seconds that lie the same number of nanoseconds
/// after the epoch are the same point.
pub proof fn lemma_same_instant(a: Timestamp, b: Timestamp)
    requires
        a.spec_nanos() < NANOS_PER_SEC,
        b.spec_nanos() < NANOS_PER_SEC,
        a.spec_total_nanos() == b.spec_total_nanos(),
    ensures
        a == b,
{
    lemma_timestamp_ext(a, b);
}

/// A timestamp taken apart into its seconds and nanoseconds and built again
/// with `from_timestamp` is the same timestamp.
pub proof fn lemma_timestamp_round_trip(t: Timestamp, r: Option<Timestamp>)
    requires
        valid_timestamp(t.spec_secs() as int, t.spec_nanos() as int),
        is_from_timestamp_outcome(t.spec_secs(), t.spec_nanos(), r),
    ensures
        r == Some(t),
{
    lemma_timestamp_ext(r.unwrap(), t);
}

/// A signed span of time of whole seconds (rounded towards minus infinity)
/// and the nanoseconds beyond them, within the bounds of chrono's
/// `TimeDelta`: at most `i64::MAX` milliseconds either way.
#[derive(Clone, Copy, Debug)]
pub struct TimeDelta {
    secs: i64,
    nanos: u32,
}

impl TimeDelta {
    #[verifier::type_invariant]
    spec fn well_formed(self) -> bool {
        &&& self.nanos < NANOS_PER_SEC
        &&& -max_delta_nanos() <= total_nanos(self.secs as int, self.nanos as int)
            <= max_delta_nanos()
    }

    /// The span in nanoseconds.
    pub closed spec fn spec_total_nanos(&self) -> int {
        total_nanos(self.secs as int, self.nanos as int)
    }

    /// The span of `secs` seconds plus `nanos` nanoseconds, as
    /// `TimeDelta::new` builds it: `None` exactly when `nanos` is not below
    /// one billion or the span lies outside the bounds of a `TimeDelta`.
    pub fn new(secs: i64, nanos: u32) -> (r: Option<TimeDelta>)
        ensures
            r is Some <==> nanos < NANOS_PER_SEC && -max_delta_nanos() <= total_nanos(
                secs as int,
                nanos as int,
            ) <= max_delta_nanos(),
            r matches Some(d) ==> d.spec_total_nanos() == total_nanos(secs as int, nanos as int)
                && d.seconds_part() == secs && d.nanos_part() == nanos,
    {
        if nanos >= NANOS_PER_SEC {
            return None;
        }
        let total: i128 = secs as i128 * 1_000_000_000i128 + nanos as i128;
        let bound: i128 = MAX_DELTA_MILLIS as i128 * 1_000_000i128;
        if total < -bound || total > bound {
            return None;
        }
        Some(TimeDelta { secs, nanos })
    }

    /// Whole seconds of the span, rounded towards minus infinity.
    #[verifier::when_used_as_spec(spec_seconds_part)]
    pub fn seconds_part(&self) -> (r: i64)
        ensures
            r == self.spec_seconds_part(),
    {
        self.secs
    }

    /// Nanoseconds beyond the whole seconds, below one billion.
    #[verifier::when_used_as_spec(spec_nanos_part)]
    pub fn nanos_part(&self) -> (r: u32)
        ensures
            r == self.spec_nanos_part(),
            r < NANOS_PER_SEC,
            self.spec_total_nanos() == total_nanos(self.spec_seconds_part() as int, r as int),
    {
        proof {
            use_type_invariant(self);
        }
        self.nanos
    }

    /// Whole seconds of the span, rounded towards minus infinity.
    pub closed spec fn spec_seconds_part(&self) -> i64 {
        self.secs
    }

    /// Nanoseconds beyond the whole seconds.
    pub closed spec fn spec_nanos_part(&self) -> u32 {
        self.nanos
    }
}

/// The current time, read from the system clock by chrono's `Utc::now`.
/// When it returns, chrono answers a point at or after the epoch and outside
/// any leap second; which point is left open. chrono panics when the clock
/// reads before 1970.
#[verifier::external_body]
pub(crate) fn utc_now() -> (r: Timestamp)
    ensures
        r.spec_secs() >= 0,
        r.spec_nanos() < NANOS_PER_SEC,
{
    let now = chrono::Utc::now();
    Timestamp { secs: now.timestamp(), nanos: now.timestamp_subsec_nanos() }
}

/// chrono's `DateTime::<Utc>::checked_add_signed`. For a point outside a
/// leap second, chrono adds the span exactly and answers `None` exactly when
/// the sum falls outside the range of `DateTime<Utc>`; the sum is then
/// outside any leap second too.
#[verifier::external_body]
pub(crate) fn checked_add_signed(t: Timestamp, d: TimeDelta) -> (r: Option<Timestamp>)
    requires
        t.spec_nanos() < NANOS_PER_SEC,
    ensures
        r is Some <==> in_timestamp_range(t.spec_total_nanos() + d.spec_total_nanos()),
        r matches Some(s) ==> s.spec_nanos() < NANOS_PER_SEC && s.spec_total_nanos()
            == t.spec_total_nanos() + d.spec_total_nanos(),
{
    let start = chrono::DateTime::from_timestamp(t.secs, t.nanos).unwrap();
    let span = chrono::TimeDelta::new(d.secs, d.nanos).unwrap();
    match start.checked_add_signed(span) {
        Some(s) => Some(Timestamp { secs: s.timestamp(), nanos: s.timestamp_subsec_nanos() }),
        None => None,
    }
}

} // verus!

//! Identifiers of events, traces, users and everything else an event names.
use vstd::prelude::*;

verus! {

/// A UUID as its 128-bit value, most significant byte first (the order in
/// which `uuid::Uuid::from_u128` and `as_u128` read it).
#[derive(Clone, Copy, Debug, PartialEq, Eq, Structural, Hash)]
pub struct Uuid(pub u128);

/// Whether `v` carries the marks of a time-ordered (version 7) UUID: the
/// version nibble is 7 and the variant bits are those of RFC 4122.
pub open spec fn is_time_ordered_uuid(v: u128) -> bool {
    v & 0xF000_C000_0000_0000_0000u128 == 0x7000_8000_0000_0000_0000u128
}


/// A fresh time-ordered UUID from `uuid::Uuid::now_v7`. uuid fixes the
/// version nibble to 7 and the variant bits to RFC 4122; the timestamp bits
/// come from the system clock and a process-wide counter, the rest from the
/// operating system's random source, and are left open. uuid panics when
/// the clock reads before 1970 or the random source fails.
#[verifier::external_body]
pub(crate) fn now_v7() -> (r: Uuid)
    ensures
        is_time_ordered_uuid(r.0),
{
    Uuid(uuid::Uuid::now_v7().as_u128())
}

} // verus!

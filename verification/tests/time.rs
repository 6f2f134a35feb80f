use event_protocol::time::{
    TimeDelta, Timestamp, MAX_DELTA_MILLIS, MAX_TIMESTAMP_SECS, MIN_TIMESTAMP_SECS,
};

#[test]
fn timestamp_range_is_that_of_chrono() {
    assert_eq!(MIN_TIMESTAMP_SECS, chrono::DateTime::<chrono::Utc>::MIN_UTC.timestamp());
    assert_eq!(MAX_TIMESTAMP_SECS, chrono::DateTime::<chrono::Utc>::MAX_UTC.timestamp());
    assert!(Timestamp::from_timestamp(MIN_TIMESTAMP_SECS, 0).is_some());
    assert!(Timestamp::from_timestamp(MIN_TIMESTAMP_SECS - 1, 999_999_999).is_none());
    assert!(Timestamp::from_timestamp(MAX_TIMESTAMP_SECS, 999_999_999).is_some());
    assert!(Timestamp::from_timestamp(MAX_TIMESTAMP_SECS + 1, 0).is_none());
}

#[test]
fn from_timestamp_agrees_with_chrono() {
    let cases: [(i64, u32); 10] = [
        (0, 0),
        (1_700_000_000, 999_999_999),
        (1_700_000_000, 1_000_000_000),
        (59, 1_000_000_000),
        (59, 1_999_999_999),
        (59, 2_000_000_000),
        (-1, 1_500_000_000),
        (-61, 1_000_000_000),
        (MIN_TIMESTAMP_SECS - 1, 0),
        (MAX_TIMESTAMP_SECS + 1, 0),
    ];
    for (s, n) in cases {
        let ours = Timestamp::from_timestamp(s, n);
        let theirs = chrono::DateTime::from_timestamp(s, n);
        assert_eq!(ours.is_some(), theirs.is_some(), "at {} s {} ns", s, n);
        if let (Some(a), Some(b)) = (ours, theirs) {
            assert_eq!(a.timestamp(), b.timestamp());
            assert_eq!(a.timestamp_subsec_nanos(), b.timestamp_subsec_nanos());
        }
    }
}

#[test]
fn leap_second_only_at_the_end_of_a_minute() {
    let leap = Timestamp::from_timestamp(1_483_228_799, 1_000_000_000).unwrap();
    assert_eq!(leap.timestamp(), 1_483_228_799);
    assert_eq!(leap.timestamp_subsec_nanos(), 1_000_000_000);
    assert!(Timestamp::from_timestamp(1_483_228_800, 1_000_000_000).is_none());
}

#[test]
fn timestamp_round_trips() {
    let t = Timestamp::from_timestamp(-123_456, 789).unwrap();
    let again = Timestamp::from_timestamp(t.timestamp(), t.timestamp_subsec_nanos()).unwrap();
    assert_eq!(again.timestamp(), -123_456);
    assert_eq!(again.timestamp_subsec_nanos(), 789);
}

#[test]
fn time_delta_bounds_are_those_of_chrono() {
    let max_secs = MAX_DELTA_MILLIS / 1000;
    let max_nanos = (MAX_DELTA_MILLIS % 1000) as u32 * 1_000_000;
    let cases: [(i64, u32); 9] = [
        (0, 0),
        (30, 0),
        (-1, 999_999_999),
        (0, 1_000_000_000),
        (max_secs, max_nanos),
        (max_secs, max_nanos + 1),
        (-max_secs - 1, 1_000_000_000 - max_nanos),
        (-max_secs - 1, 1_000_000_000 - max_nanos - 1),
        (i64::MIN, 0),
    ];
    for (s, n) in cases {
        let ours = TimeDelta::new(s, n);
        let theirs = chrono::TimeDelta::new(s, n);
        assert_eq!(ours.is_some(), theirs.is_some(), "at {} s {} ns", s, n);
        if let Some(d) = ours {
            assert_eq!(d.seconds_part(), s);
            assert_eq!(d.nanos_part(), n);
        }
    }
}

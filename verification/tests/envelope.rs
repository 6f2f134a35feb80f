use event_protocol::envelope::{EventEnvelope, EventMetadata, EventRetention, StorageTier};
use event_protocol::ids::Uuid;
use event_protocol::payload::{
    EventPayload, OrderResumed, PageView, PriceFeedError, ServiceStarted, UserMFADisabled,
};
use event_protocol::schema_versions;
use event_protocol::time::{TimeDelta, Timestamp, MAX_TIMESTAMP_SECS, MIN_TIMESTAMP_SECS};

fn ts(secs: i64, nanos: u32) -> Timestamp {
    Timestamp::from_timestamp(secs, nanos).unwrap()
}

fn span(secs: i64, nanos: u32) -> TimeDelta {
    TimeDelta::new(secs, nanos).unwrap()
}

fn sample_payload() -> EventPayload {
    EventPayload::ServiceStarted(ServiceStarted {
        service_name: "matching-engine".to_string(),
        version: "2.4.1".to_string(),
        host: "node-7".to_string(),
        pid: 4242,
        startup_time_ms: 1350,
    })
}

fn sample() -> EventEnvelope {
    EventEnvelope::from_parts(
        "service.started".to_string(),
        sample_payload(),
        EventMetadata::new(Uuid(11), Uuid(12)),
        "orchestrator".to_string(),
        Uuid(99),
        ts(1_700_000_000, 250),
        ts(1_700_000_001, 500),
    )
}

fn is_hot(tier: &StorageTier) -> bool {
    matches!(tier, StorageTier::Hot)
}

fn same_payload(a: &EventPayload, b: &EventPayload) -> bool {
    format!("{:?}", a) == format!("{:?}", b)
}

/// Every field but the availability time, compared by its printed form.
fn same_but_available_at(a: &EventEnvelope, b: &EventEnvelope) -> bool {
    a.event_id == b.event_id
        && a.event_type == b.event_type
        && a.schema_version == b.schema_version
        && same_payload(&a.payload, &b.payload)
        && format!("{:?}", a.metadata) == format!("{:?}", b.metadata)
        && a.source == b.source
        && a.produced_at.timestamp() == b.produced_at.timestamp()
        && a.produced_at.timestamp_subsec_nanos() == b.produced_at.timestamp_subsec_nanos()
        && a.partition_key == b.partition_key
        && format!("{:?}", a.retention) == format!("{:?}", b.retention)
}

fn same_envelope(a: &EventEnvelope, b: &EventEnvelope) -> bool {
    same_but_available_at(a, b)
        && a.available_at.timestamp() == b.available_at.timestamp()
        && a.available_at.timestamp_subsec_nanos() == b.available_at.timestamp_subsec_nanos()
}

#[test]
fn from_parts_sets_version_key_and_retention() {
    let e = sample();
    assert_eq!(e.event_id, Uuid(99));
    assert_eq!(e.event_type, "service.started");
    assert_eq!(e.schema_version, schema_versions::SYSTEM_EVENT);
    assert!(same_payload(&e.payload, &sample_payload()));
    assert_eq!(e.metadata.trace_id, Uuid(11));
    assert_eq!(e.metadata.span_id, Uuid(12));
    assert_eq!(e.source, "orchestrator");
    assert_eq!(e.produced_at.timestamp(), 1_700_000_000);
    assert_eq!(e.produced_at.timestamp_subsec_nanos(), 250);
    assert_eq!(e.available_at.timestamp(), 1_700_000_001);
    assert_eq!(e.available_at.timestamp_subsec_nanos(), 500);
    assert_eq!(e.partition_key, "");
    assert_eq!(e.retention.retention_days, 90);
    assert!(!e.retention.archive);
    assert!(is_hot(&e.retention.storage_tier));
}

#[test]
fn new_takes_a_time_ordered_id_and_two_clock_readings() {
    let before = chrono::Utc::now();
    let e = EventEnvelope::new(
        "order.created".to_string(),
        EventPayload::Unknown,
        EventMetadata::new(Uuid(1), Uuid(2)),
        String::from("order-service"),
    );
    let after = chrono::Utc::now();
    let id = uuid::Uuid::from_u128(e.event_id.0);
    assert_eq!(id.get_version_num(), 7);
    assert_eq!(id.get_variant(), uuid::Variant::RFC4122);
    assert_eq!(
        e.event_id.0 & 0xF000_C000_0000_0000_0000,
        0x7000_8000_0000_0000_0000
    );
    let millis = (e.event_id.0 >> 80) as i64;
    assert!(before.timestamp_millis() <= millis && millis <= after.timestamp_millis());
    assert_eq!(e.event_type, "order.created");
    assert_eq!(e.source, "order-service");
    assert_eq!(e.schema_version, 1);
    assert!(matches!(e.payload, EventPayload::Unknown));
    assert_eq!(e.partition_key, "");
    assert_eq!(e.retention.retention_days, 90);
    assert!(!e.retention.archive);
    assert!(is_hot(&e.retention.storage_tier));
    for t in [e.produced_at, e.available_at] {
        assert!(before.timestamp() <= t.timestamp() && t.timestamp() <= after.timestamp());
        assert!(t.timestamp_subsec_nanos() < 1_000_000_000);
    }
}

#[test]
fn new_stamps_the_version_of_the_payload_family() {
    let meta = EventMetadata::new(Uuid(0), Uuid(0));
    let order = EventEnvelope::new(
        "order.resumed".to_string(),
        EventPayload::OrderResumed(OrderResumed { order_id: Uuid(0) }),
        meta.clone(),
        "oms".to_string(),
    );
    assert_eq!(order.schema_version, schema_versions::ORDER_EVENT);
    assert_eq!(order.schema_version, 5);
    let user = EventEnvelope::new(
        "user.mfa_disabled".to_string(),
        EventPayload::UserMFADisabled(UserMFADisabled { user_id: Uuid(3), reason: None }),
        meta.clone(),
        "identity".to_string(),
    );
    assert_eq!(user.schema_version, schema_versions::USER_EVENT);
    let page = EventEnvelope::new(
        "page.view".to_string(),
        EventPayload::PageView(PageView {
            page_id: "home".to_string(),
            user_id: None,
            session_id: Uuid(4),
            url: "/".to_string(),
            referrer: None,
            duration_ms: 1200,
            device_type: "desktop".to_string(),
            browser: "firefox".to_string(),
            os: "linux".to_string(),
            screen_resolution: "1920x1080".to_string(),
        }),
        meta,
        "web".to_string(),
    );
    assert_eq!(page.schema_version, schema_versions::ANALYTICS_EVENT);
    assert_eq!(page.with_partition_key("p".to_string()).schema_version, 4);
}

#[test]
fn payload_schema_version_follows_the_family() {
    assert_eq!(sample_payload().schema_version(), schema_versions::SYSTEM_EVENT);
    let feed = EventPayload::PriceFeedError(PriceFeedError {
        instrument_id: "ETH-USD".to_string(),
        source: "feed-b".to_string(),
        error: "gap".to_string(),
        will_retry: false,
    });
    assert_eq!(feed.schema_version(), schema_versions::MARKET_EVENT);
    assert_eq!(EventPayload::Unknown.schema_version(), 1);
}

#[test]
fn new_gives_each_envelope_its_own_id_in_order() {
    let meta = EventMetadata::new(Uuid(1), Uuid(2));
    let a = EventEnvelope::new("a".to_string(), EventPayload::Unknown, meta.clone(), "s".to_string());
    let b = EventEnvelope::new("a".to_string(), EventPayload::Unknown, meta, "s".to_string());
    assert_ne!(a.event_id, b.event_id);
    assert!(a.event_id.0 < b.event_id.0);
}

#[test]
fn with_partition_key_replaces_only_the_key() {
    let e = sample().with_partition_key("account-17".to_string());
    assert_eq!(e.partition_key, "account-17");
    let mut expected = sample();
    expected.partition_key = "account-17".to_string();
    assert!(same_envelope(&e, &expected));
    let f = sample().with_partition_key(String::from("account-18"));
    assert_eq!(f.partition_key, "account-18");
}

#[test]
fn with_retention_replaces_only_the_retention() {
    let retention = EventRetention {
        retention_days: 2555,
        archive: true,
        storage_tier: StorageTier::Glacier,
    };
    let e = sample().with_retention(retention);
    assert_eq!(e.retention.retention_days, 2555);
    assert!(e.retention.archive);
    assert!(matches!(e.retention.storage_tier, StorageTier::Glacier));
    assert_eq!(e.partition_key, "");
    assert_eq!(e.event_id, Uuid(99));
    assert_eq!(e.schema_version, schema_versions::SYSTEM_EVENT);
}

#[test]
fn key_and_retention_commute() {
    let retention = EventRetention { retention_days: 30, archive: true, storage_tier: StorageTier::Cold };
    let a = sample().with_partition_key("k".to_string()).with_retention(retention.clone());
    let b = sample().with_retention(retention).with_partition_key("k".to_string());
    assert!(same_envelope(&a, &b));
}

#[test]
fn last_partition_key_wins() {
    let twice = sample().with_partition_key("first".to_string()).with_partition_key("second".to_string());
    let once = sample().with_partition_key("second".to_string());
    assert!(same_envelope(&twice, &once));
}

#[test]
fn last_retention_wins() {
    let first = EventRetention { retention_days: 1, archive: false, storage_tier: StorageTier::Warm };
    let second = EventRetention { retention_days: 7, archive: true, storage_tier: StorageTier::Cold };
    let twice = sample().with_retention(first).with_retention(second.clone());
    let once = sample().with_retention(second);
    assert!(same_envelope(&twice, &once));
}

#[test]
fn delayed_from_adds_the_delay_to_the_clock_reading() {
    let e = sample().delayed_from(ts(1_700_000_000, 500_000_000), span(30, 700_000_000)).unwrap();
    assert_eq!(e.available_at.timestamp(), 1_700_000_031);
    assert_eq!(e.available_at.timestamp_subsec_nanos(), 200_000_000);
    assert!(same_but_available_at(&e, &sample()));
}

#[test]
fn delayed_from_accepts_a_negative_delay() {
    // One nanosecond back.
    let e = sample().delayed_from(ts(1_700_000_000, 0), span(-1, 999_999_999)).unwrap();
    assert_eq!(e.available_at.timestamp(), 1_699_999_999);
    assert_eq!(e.available_at.timestamp_subsec_nanos(), 999_999_999);
}

#[test]
fn zero_delay_makes_the_event_available_at_the_reading() {
    let now = ts(1_234_567_890, 123_456_789);
    let e = sample().delayed_from(now, span(0, 0)).unwrap();
    assert_eq!(e.available_at.timestamp(), 1_234_567_890);
    assert_eq!(e.available_at.timestamp_subsec_nanos(), 123_456_789);
    assert!(same_but_available_at(&e, &sample()));
}

#[test]
fn delays_do_not_accumulate() {
    let now = ts(1_700_000_000, 0);
    let twice = sample()
        .delayed_from(now, span(60, 0))
        .unwrap()
        .delayed_from(now, span(5, 0))
        .unwrap();
    let once = sample().delayed_from(now, span(5, 0)).unwrap();
    assert!(same_envelope(&twice, &once));
    assert_eq!(twice.available_at.timestamp(), 1_700_000_005);
}

#[test]
fn delayed_from_refuses_a_point_past_the_range() {
    let last = ts(MAX_TIMESTAMP_SECS, 999_999_998);
    let e = sample().delayed_from(last, span(0, 1)).unwrap();
    assert_eq!(e.available_at.timestamp(), MAX_TIMESTAMP_SECS);
    assert_eq!(e.available_at.timestamp_subsec_nanos(), 999_999_999);
    assert!(sample().delayed_from(last, span(0, 2)).is_none());
    assert!(sample().delayed_from(ts(0, 0), span(9_000_000_000_000_000, 0)).is_none());
}

#[test]
fn delayed_from_refuses_a_point_before_the_range() {
    let first = ts(MIN_TIMESTAMP_SECS, 0);
    assert!(sample().delayed_from(first, span(-1, 999_999_999)).is_none());
    let e = sample().delayed_from(ts(MIN_TIMESTAMP_SECS + 1, 0), span(-1, 0)).unwrap();
    assert_eq!(e.available_at.timestamp(), MIN_TIMESTAMP_SECS);
}

#[test]
fn delayed_from_agrees_with_chrono() {
    let cases: [(i64, u32, i64, u32); 5] = [
        (0, 0, 86_400, 0),
        (1_700_000_000, 999_999_999, 0, 1),
        (-1, 5, -3, 999_999_990),
        (951_782_400, 0, 31_536_000, 123),
        (253_402_300_799, 0, 1, 0),
    ];
    for (s, n, ds, dn) in cases {
        let expected = chrono::DateTime::from_timestamp(s, n)
            .unwrap()
            .checked_add_signed(chrono::TimeDelta::new(ds, dn).unwrap())
            .unwrap();
        let e = sample().delayed_from(ts(s, n), span(ds, dn)).unwrap();
        assert_eq!(e.available_at.timestamp(), expected.timestamp());
        assert_eq!(e.available_at.timestamp_subsec_nanos(), expected.timestamp_subsec_nanos());
    }
}

#[test]
fn delayed_reads_the_clock() {
    let before = chrono::Utc::now().timestamp();
    let e = sample().delayed(span(3600, 0)).unwrap();
    let after = chrono::Utc::now().timestamp();
    assert!(before + 3600 <= e.available_at.timestamp());
    assert!(e.available_at.timestamp() <= after + 3600);
    assert!(same_but_available_at(&e, &sample()));
}

#[test]
fn delayed_by_zero_or_less_succeeds() {
    assert!(sample().delayed(span(0, 0)).is_some());
    assert!(sample().delayed(span(-86_400, 0)).is_some());
    let e = sample().delayed(span(-4_000_000_000, 0)).unwrap();
    assert!(e.available_at.timestamp() < 0);
}

#[test]
fn delayed_beyond_the_range_is_none() {
    let longest = span(9_223_372_036_854_775, 807_000_000);
    assert!(sample().delayed(longest).is_none());
}

#[test]
fn metadata_new_starts_empty() {
    let m = EventMetadata::new(Uuid(0xabc), Uuid(0xdef));
    assert_eq!(m.trace_id, Uuid(0xabc));
    assert_eq!(m.span_id, Uuid(0xdef));
    assert!(m.correlation_id.is_none());
    assert!(m.user_id.is_none());
    assert!(m.organization_id.is_none());
    assert!(m.request_id.is_none());
    assert!(m.client_ip.is_none());
    assert!(m.user_agent.is_none());
    assert!(m.custom.is_empty());
}

#[test]
fn envelope_carries_any_payload() {
    let payload = EventPayload::PriceFeedError(PriceFeedError {
        instrument_id: "BTC-USD".to_string(),
        source: "feed-a".to_string(),
        error: "stale quote".to_string(),
        will_retry: true,
    });
    let e = sample().delayed_from(ts(10, 0), span(1, 0)).unwrap();
    let e = EventEnvelope { payload, ..e };
    match &e.payload {
        EventPayload::PriceFeedError(p) => {
            assert_eq!(p.instrument_id, "BTC-USD");
            assert!(p.will_retry);
        }
        _ => panic!("payload changed"),
    }
    let copy = e.clone();
    assert!(same_envelope(&copy, &e));
}

#[test]
fn schema_versions_are_as_published() {
    assert_eq!(schema_versions::USER_EVENT, 3);
    assert_eq!(schema_versions::ORDER_EVENT, 5);
    assert_eq!(schema_versions::TRADE_EVENT, 4);
    assert_eq!(schema_versions::ACCOUNT_EVENT, 2);
    assert_eq!(schema_versions::MARKET_EVENT, 6);
    assert_eq!(schema_versions::COMPLIANCE_EVENT, 1);
    assert_eq!(schema_versions::SYSTEM_EVENT, 3);
    assert_eq!(schema_versions::AUDIT_EVENT, 2);
    assert_eq!(schema_versions::NOTIFICATION_EVENT, 2);
    assert_eq!(schema_versions::ANALYTICS_EVENT, 4);
}

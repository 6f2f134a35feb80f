//! The envelope that wraps every event flowing through the system, with its
//! metadata and retention settings, and the ways to build one.
use std::collections::HashMap;
use vstd::prelude::*;

use crate::ids::{is_time_ordered_uuid, now_v7, Uuid};
use crate::schema_versions;
use crate::payload::{lemma_schema_version_of_each_family, payload_schema_version, EventPayload};
use crate::time::{
    checked_add_signed, in_timestamp_range, lemma_same_instant, utc_now, valid_timestamp,
    TimeDelta, Timestamp, NANOS_PER_SEC,
};

verus! {

/// Universal event envelope wrapping all event types.
///
/// The `event_type` field names the kind of the payload. Field order matters
/// for the serialized form: do not reorder the fields.
#[derive(Debug, Clone)]
pub struct EventEnvelope {
    /// Unique event identifier (UUID v7 for time-ordered IDs).
    pub event_id: Uuid,
    /// Event type discriminator (e.g. "order.created", "trade.executed").
    pub event_type: String,
    /// Schema version of this event payload: that of the payload's family
    /// of events (see `schema_versions`).
    pub schema_version: u32,
    /// Event payload (typed by `event_type`).
    pub payload: EventPayload,
    /// Event metadata (tracing, correlation, authentication).
    pub metadata: EventMetadata,
    /// Source of the event (service name).
    pub source: String,
    /// When the event was produced.
    pub produced_at: Timestamp,
    /// When the event should be processed; if in the past, at once.
    pub available_at: Timestamp,
    /// Partition key for message ordering guarantees.
    pub partition_key: String,
    /// Event retention configuration.
    pub retention: EventRetention,
}

/// Tracing, correlation and authentication context of an event.
#[derive(Debug, Clone)]
pub struct EventMetadata {
    /// Trace ID for distributed tracing.
    pub trace_id: Uuid,
    /// Span ID within the trace.
    pub span_id: Uuid,
    /// Correlation ID for grouping related events.
    pub correlation_id: Option<Uuid>,
    /// User ID who triggered the event (if applicable).
    pub user_id: Option<Uuid>,
    /// Organization context.
    pub organization_id: Option<Uuid>,
    /// Request ID that caused this event.
    pub request_id: Option<String>,
    /// Client IP address (anonymized for privacy).
    pub client_ip: Option<String>,
    /// User agent string.
    pub user_agent: Option<String>,
    /// Custom metadata passthrough.
    pub custom: HashMap<String, String>,
}

/// How long an event is kept, and where.
#[derive(Debug, Clone)]
pub struct EventRetention {
    /// How long to retain this event (in days).
    pub retention_days: u32,
    /// Whether this event should be archived to cold storage.
    pub archive: bool,
    /// Storage tier for archival.
    pub storage_tier: StorageTier,
}

/// Storage tier for archived events.
#[derive(Debug, Clone)]
pub enum StorageTier {
    Hot,
    Warm,
    Cold,
    Glacier,
}

/// The retention an envelope starts with: ninety days, not archived, hot
/// storage.
pub open spec fn is_default_retention(r: EventRetention) -> bool {
    &&& r.retention_days == 90
    &&& !r.archive
    &&& r.storage_tier == StorageTier::Hot
}

/// A reading of the system clock as chrono gives it: a point that a
/// `DateTime<Utc>` can hold, at or after the epoch, outside any leap second.
pub open spec fn is_clock_reading(t: Timestamp) -> bool {
    &&& valid_timestamp(t.spec_secs() as int, t.spec_nanos() as int)
    &&& t.spec_secs() >= 0
    &&& t.spec_nanos() < NANOS_PER_SEC
}

/// `after` is `before` with at most its availability time replaced.
pub open spec fn same_but_available_at(before: EventEnvelope, after: EventEnvelope) -> bool {
    after == (EventEnvelope { available_at: after.available_at, ..before })
}

/// What every new envelope starts with: the schema version of its
/// payload's family, an empty partition key and the default retention.
pub open spec fn is_fresh(e: EventEnvelope) -> bool {
    &&& e.schema_version == payload_schema_version(e.payload)
    &&& e.partition_key@ == Seq::<char>::empty()
    &&& is_default_retention(e.retention)
}

/// What delaying `before` by `delay` from the clock reading `now` gives:
/// `None` exactly when `now + delay` lies outside the range of
/// `DateTime<Utc>`, else `before` available at `now + delay`.
pub open spec fn is_delayed_outcome(
    before: EventEnvelope,
    now: Timestamp,
    delay: TimeDelta,
    r: Option<EventEnvelope>,
) -> bool {
    let target = now.spec_total_nanos() + delay.spec_total_nanos();
    &&& r is Some <==> in_timestamp_range(target)
    &&& r matches Some(e) ==> {
        &&& same_but_available_at(before, e)
        &&& e.available_at.spec_nanos() < NANOS_PER_SEC
        &&& e.available_at.spec_total_nanos() == target
    }
}

impl EventEnvelope {
    /// The envelope holding the given parts, of the schema version of the
    /// payload's family, identified
    /// by `event_id`, produced at `produced_at` and available at
    /// `available_at`, with an empty partition key and the default retention.
    pub fn from_parts(
        event_type: String,
        payload: EventPayload,
        metadata: EventMetadata,
        source: String,
        event_id: Uuid,
        produced_at: Timestamp,
        available_at: Timestamp,
    ) -> (r: Self)
        ensures
            is_fresh(r),
            r.event_type == event_type,
            r.payload == payload,
            r.metadata == metadata,
            r.source == source,
            r.event_id == event_id,
            r.produced_at == produced_at,
            r.available_at == available_at,
    {
        let schema_version = payload.schema_version();
        EventEnvelope {
            event_id,
            event_type,
            schema_version,
            payload,
            metadata,
            source,
            produced_at,
            available_at,
            partition_key: String::new(),
            retention: EventRetention {
                retention_days: 90,
                archive: false,
                storage_tier: StorageTier::Hot,
            },
        }
    }

    /// A new envelope for `payload`: a fresh time-ordered (version 7) event
    /// id, produced and available now (two readings of the clock), the
    /// schema version of the payload's family, an empty partition key and
    /// the default retention.
    ///
    /// Panics, as chrono and uuid do, when the system clock reads before
    /// 1970 or the operating system's random source fails.
    pub fn new(
        event_type: String,
        payload: EventPayload,
        metadata: EventMetadata,
        source: String,
    ) -> (r: Self)
        ensures
            is_fresh(r),
            r.event_type == event_type,
            r.payload == payload,
            r.metadata == metadata,
            r.source == source,
            is_time_ordered_uuid(r.event_id.0),
            is_clock_reading(r.produced_at),
            is_clock_reading(r.available_at),
    {
        let event_id = now_v7();
        let produced_at = utc_now();
        let available_at = utc_now();
        // Reading the seconds brings in each timestamp's validity.
        let _ = produced_at.timestamp();
        let _ = available_at.timestamp();
        Self::from_parts(event_type, payload, metadata, source, event_id, produced_at, available_at)
    }

    /// The envelope with its partition key replaced by `key`.
    pub fn with_partition_key(self, key: String) -> (r: Self)
        ensures
            r == (EventEnvelope { partition_key: key, ..self }),
    {
        let mut e = self;
        e.partition_key = key;
        e
    }

    /// The envelope with its retention replaced by `retention`.
    pub fn with_retention(self, retention: EventRetention) -> (r: Self)
        ensures
            r == (EventEnvelope { retention, ..self }),
    {
        let mut e = self;
        e.retention = retention;
        e
    }

    /// The envelope available `delay` after the clock reading `now`, or
    /// `None` when that point lies outside the range of `DateTime<Utc>`.
    pub fn delayed_from(self, now: Timestamp, delay: TimeDelta) -> (r: Option<Self>)
        requires
            now.spec_nanos() < NANOS_PER_SEC,
        ensures
            is_delayed_outcome(self, now, delay, r),
    {
        match checked_add_signed(now, delay) {
            Some(at) => {
                let mut e = self;
                e.available_at = at;
                Some(e)
            },
            None => None,
        }
    }

    /// The envelope available `delay` after the present moment, as the
    /// system clock tells it, or `None` when that point lies outside the
    /// range of `DateTime<Utc>`.
    ///
    /// Panics, as chrono does, when the system clock reads before 1970.
    pub fn delayed(self, delay: TimeDelta) -> (r: Option<Self>)
        ensures
            exists|now: Timestamp|
                is_clock_reading(now) && #[trigger] is_delayed_outcome(self, now, delay, r),
            delay.spec_total_nanos() <= 0 && in_timestamp_range(delay.spec_total_nanos()) ==> r is Some,
    {
        let now = utc_now();
        // Reading the seconds brings in the reading's validity.
        let _ = now.timestamp();
        let r = self.delayed_from(now, delay);
        assert(is_clock_reading(now) && is_delayed_outcome(self, now, delay, r));
        r
    }
}

impl EventMetadata {
    /// Metadata for the span `span_id` of the trace `trace_id`, with no
    /// correlation, user, organization, request, client address or user
    /// agent, and no custom entries.
    pub fn new(trace_id: Uuid, span_id: Uuid) -> (r: Self)
        ensures
            r.trace_id == trace_id,
            r.span_id == span_id,
            r.correlation_id is None,
            r.user_id is None,
            r.organization_id is None,
            r.request_id is None,
            r.client_ip is None,
            r.user_agent is None,
            r.custom@ == Map::<String, String>::empty(),
    {
        EventMetadata {
            trace_id,
            span_id,
            correlation_id: None,
            user_id: None,
            organization_id: None,
            request_id: None,
            client_ip: None,
            user_agent: None,
            custom: HashMap::new(),
        }
    }
}

/// Setting the partition key and setting the retention commute: in either
/// order they give the same envelope.
pub proof fn lemma_key_and_retention_commute(
    e: EventEnvelope,
    key: String,
    retention: EventRetention,
)
    ensures
        (EventEnvelope { retention, ..(EventEnvelope { partition_key: key, ..e }) }) == (
        EventEnvelope { partition_key: key, ..(EventEnvelope { retention, ..e }) }),
{
}

/// Of two partition keys set one after the other, the second wins: the
/// first leaves no trace.
pub proof fn lemma_last_partition_key_wins(e: EventEnvelope, first: String, second: String)
    ensures
        (EventEnvelope { partition_key: second, ..(EventEnvelope { partition_key: first, ..e }) })
            == (EventEnvelope { partition_key: second, ..e }),
{
}

/// Setting the partition key or the retention keeps the envelope's schema
/// version that of its payload's family.
pub proof fn lemma_builders_keep_schema_version(
    e: EventEnvelope,
    key: String,
    retention: EventRetention,
)
    requires
        e.schema_version == payload_schema_version(e.payload),
    ensures
        (EventEnvelope { partition_key: key, ..e }).schema_version == payload_schema_version(
            (EventEnvelope { partition_key: key, ..e }).payload,
        ),
        (EventEnvelope { retention, ..e }).schema_version == payload_schema_version(
            (EventEnvelope { retention, ..e }).payload,
        ),
{
}

/// Of two retentions set one after the other, the second wins.
pub proof fn lemma_last_retention_wins(
    e: EventEnvelope,
    first: EventRetention,
    second: EventRetention,
)
    ensures
        (EventEnvelope { retention: second, ..(EventEnvelope { retention: first, ..e }) }) == (
        EventEnvelope { retention: second, ..e }),
{
}

/// A delay of zero makes the envelope available at the clock reading
/// itself, and changes nothing else.
pub proof fn lemma_zero_delay(
    e: EventEnvelope,
    now: Timestamp,
    delay: TimeDelta,
    r: Option<EventEnvelope>,
)
    requires
        valid_timestamp(now.spec_secs() as int, now.spec_nanos() as int),
        now.spec_nanos() < NANOS_PER_SEC,
        delay.spec_total_nanos() == 0,
        is_delayed_outcome(e, now, delay, r),
    ensures
        r == Some(EventEnvelope { available_at: now, ..e }),
{
    lemma_same_instant(r.unwrap().available_at, now);
}

/// Delays do not add up: delaying an envelope that was already delayed
/// from the same clock reading gives what the last delay alone gives.
pub proof fn lemma_delays_do_not_accumulate(
    e: EventEnvelope,
    now: Timestamp,
    first: TimeDelta,
    second: TimeDelta,
    once: EventEnvelope,
    twice: Option<EventEnvelope>,
    second_only: Option<EventEnvelope>,
)
    requires
        now.spec_nanos() < NANOS_PER_SEC,
        is_delayed_outcome(e, now, first, Some(once)),
        is_delayed_outcome(once, now, second, twice),
        is_delayed_outcome(e, now, second, second_only),
    ensures
        twice == second_only,
{
    if twice is Some {
        lemma_same_instant(twice.unwrap().available_at, second_only.unwrap().available_at);
    }
}

/// Every new envelope, whether made by `new` or by `from_parts`, is stamped
/// with the schema version of its payload's family: an envelope of a trade
/// carries `TRADE_EVENT`, one of an order `ORDER_EVENT`, and so on; one of
/// a kind not known here carries 1.
pub proof fn lemma_fresh_envelope_schema_version(e: EventEnvelope)
    requires
        is_fresh(e),
    ensures
        (e.payload is UserCreated
            || e.payload is UserUpdated
            || e.payload is UserDeleted
            || e.payload is UserLoggedIn
            || e.payload is UserLoggedOut
            || e.payload is UserPasswordChanged
            || e.payload is UserPasswordReset
            || e.payload is UserEmailVerified
            || e.payload is UserMFAEnabled
            || e.payload is UserMFADisabled
            || e.payload is UserMFARecoveryUsed
            || e.payload is UserPermissionsChanged
            || e.payload is UserRoleChanged
            || e.payload is UserSuspended
            || e.payload is UserReactivated) ==> e.schema_version == schema_versions::USER_EVENT,
        (e.payload is OrderCreated
            || e.payload is OrderUpdated
            || e.payload is OrderCancelled
            || e.payload is OrderFilled
            || e.payload is OrderPartiallyFilled
            || e.payload is OrderRejected
            || e.payload is OrderExpired
            || e.payload is OrderAmended
            || e.payload is OrderSuspended
            || e.payload is OrderResumed) ==> e.schema_version == schema_versions::ORDER_EVENT,
        (e.payload is TradeExecuted
            || e.payload is TradeSettled
            || e.payload is TradeFailed
            || e.payload is TradeDisputed
            || e.payload is TradeResolved
            || e.payload is TradeRollback) ==> e.schema_version == schema_versions::TRADE_EVENT,
        (e.payload is AccountCreated
            || e.payload is AccountUpdated
            || e.payload is AccountClosed
            || e.payload is AccountFrozen
            || e.payload is AccountUnfrozen
            || e.payload is AccountDeposit
            || e.payload is AccountWithdrawal
            || e.payload is AccountTransfer
            || e.payload is AccountBalanceChanged
            || e.payload is AccountMarginCalled
            || e.payload is AccountLiquidated) ==> e.schema_version == schema_versions::ACCOUNT_EVENT,
        (e.payload is InstrumentAdded
            || e.payload is InstrumentUpdated
            || e.payload is InstrumentRemoved
            || e.payload is MarketOpened
            || e.payload is MarketClosed
            || e.payload is MarketHalted
            || e.payload is MarketResumed
            || e.payload is CircuitBreakerTriggered
            || e.payload is PriceFeedUpdated
            || e.payload is PriceFeedError) ==> e.schema_version == schema_versions::MARKET_EVENT,
        (e.payload is ComplianceCheckPassed
            || e.payload is ComplianceCheckFailed
            || e.payload is ComplianceReviewRequired
            || e.payload is ComplianceViolation
            || e.payload is ComplianceReportGenerated) ==> e.schema_version == schema_versions::COMPLIANCE_EVENT,
        (e.payload is ServiceStarted
            || e.payload is ServiceStopped
            || e.payload is ServiceHealthChanged
            || e.payload is ConfigChanged
            || e.payload is DeploymentStarted
            || e.payload is DeploymentCompleted
            || e.payload is DeploymentFailed
            || e.payload is BackupCompleted
            || e.payload is BackupFailed
            || e.payload is MaintenanceStarted
            || e.payload is MaintenanceCompleted) ==> e.schema_version == schema_versions::SYSTEM_EVENT,
        (e.payload is AuditTrailEntry
            || e.payload is DataAccessAudit
            || e.payload is PermissionChangeAudit
            || e.payload is ConfigChangeAudit
            || e.payload is SecurityEvent) ==> e.schema_version == schema_versions::AUDIT_EVENT,
        (e.payload is NotificationSent
            || e.payload is NotificationDelivered
            || e.payload is NotificationFailed
            || e.payload is NotificationBounced
            || e.payload is NotificationClicked) ==> e.schema_version == schema_versions::NOTIFICATION_EVENT,
        (e.payload is PageView
            || e.payload is FeatureUsed
            || e.payload is ErrorOccurred
            || e.payload is PerformanceMetric
            || e.payload is UserFeedback
            || e.payload is ABTestAssignment
            || e.payload is ABTestConversion) ==> e.schema_version == schema_versions::ANALYTICS_EVENT,
        e.payload is Unknown ==> e.schema_version == 1,
{
    lemma_schema_version_of_each_family(e.payload);
}

/// Delaying forgets the previous availability: two envelopes that differ
/// only in when they are available, delayed by the same span from the same
/// clock reading, give the same result.
pub proof fn lemma_delay_forgets_previous_availability(
    a: EventEnvelope,
    b: EventEnvelope,
    now: Timestamp,
    delay: TimeDelta,
    ra: Option<EventEnvelope>,
    rb: Option<EventEnvelope>,
)
    requires
        same_but_available_at(a, b),
        is_delayed_outcome(a, now, delay, ra),
        is_delayed_outcome(b, now, delay, rb),
    ensures
        ra == rb,
{
    if ra is Some {
        lemma_same_instant(ra.unwrap().available_at, rb.unwrap().available_at);
    }
}

} // verus!

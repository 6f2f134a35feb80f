//! The payloads of events: one struct for each kind of event, and the enum
//! that holds any one of them.
use std::collections::HashMap;
use vstd::prelude::*;

use crate::ids::Uuid;
use crate::schema_versions;
use crate::time::Timestamp;
use crate::values::FloatBits;

verus! {

// ---------------------------------------------------------------------------
// EVENT PAYLOAD
// ---------------------------------------------------------------------------

/// The payload of an event, one variant for each kind of event; `Unknown`
/// stands for a kind that this library does not know.
#[derive(Debug, Clone)]
pub enum EventPayload {
    // User events
    UserCreated(UserCreated),
    UserUpdated(UserUpdated),
    UserDeleted(UserDeleted),
    UserLoggedIn(UserLoggedIn),
    UserLoggedOut(UserLoggedOut),
    UserPasswordChanged(UserPasswordChanged),
    UserPasswordReset(UserPasswordReset),
    UserEmailVerified(UserEmailVerified),
    UserMFAEnabled(UserMFAEnabled),
    UserMFADisabled(UserMFADisabled),
    UserMFARecoveryUsed(UserMFARecoveryUsed),
    UserPermissionsChanged(UserPermissionsChanged),
    UserRoleChanged(UserRoleChanged),
    UserSuspended(UserSuspended),
    UserReactivated(UserReactivated),

    // Order events
    OrderCreated(OrderCreated),
    OrderUpdated(OrderUpdated),
    OrderCancelled(OrderCancelled),
    OrderFilled(OrderFilled),
    OrderPartiallyFilled(OrderPartiallyFilled),
    OrderRejected(OrderRejected),
    OrderExpired(OrderExpired),
    OrderAmended(OrderAmended),
    OrderSuspended(OrderSuspended),
    OrderResumed(OrderResumed),

    // Trade events
    TradeExecuted(TradeExecuted),
    TradeSettled(TradeSettled),
    TradeFailed(TradeFailed),
    TradeDisputed(TradeDisputed),
    TradeResolved(TradeResolved),
    TradeRollback(TradeRollback),

    // Account events
    AccountCreated(AccountCreated),
    AccountUpdated(AccountUpdated),
    AccountClosed(AccountClosed),
    AccountFrozen(AccountFrozen),
    AccountUnfrozen(AccountUnfrozen),
    AccountDeposit(AccountDeposit),
    AccountWithdrawal(AccountWithdrawal),
    AccountTransfer(AccountTransfer),
    AccountBalanceChanged(AccountBalanceChanged),
    AccountMarginCalled(AccountMarginCalled),
    AccountLiquidated(AccountLiquidated),

    // Market events
    InstrumentAdded(InstrumentAdded),
    InstrumentUpdated(InstrumentUpdated),
    InstrumentRemoved(InstrumentRemoved),
    MarketOpened(MarketOpened),
    MarketClosed(MarketClosed),
    MarketHalted(MarketHalted),
    MarketResumed(MarketResumed),
    CircuitBreakerTriggered(CircuitBreakerTriggered),
    PriceFeedUpdated(PriceFeedUpdated),
    PriceFeedError(PriceFeedError),

    // Compliance events
    ComplianceCheckPassed(ComplianceCheckPassed),
    ComplianceCheckFailed(ComplianceCheckFailed),
    ComplianceReviewRequired(ComplianceReviewRequired),
    ComplianceViolation(ComplianceViolation),
    ComplianceReportGenerated(ComplianceReportGenerated),

    // System events
    ServiceStarted(ServiceStarted),
    ServiceStopped(ServiceStopped),
    ServiceHealthChanged(ServiceHealthChanged),
    ConfigChanged(ConfigChanged),
    DeploymentStarted(DeploymentStarted),
    DeploymentCompleted(DeploymentCompleted),
    DeploymentFailed(DeploymentFailed),
    BackupCompleted(BackupCompleted),
    BackupFailed(BackupFailed),
    MaintenanceStarted(MaintenanceStarted),
    MaintenanceCompleted(MaintenanceCompleted),

    // Audit events
    AuditTrailEntry(AuditTrailEntry),
    DataAccessAudit(DataAccessAudit),
    PermissionChangeAudit(PermissionChangeAudit),
    ConfigChangeAudit(ConfigChangeAudit),
    SecurityEvent(SecurityEvent),

    // Notification events
    NotificationSent(NotificationSent),
    NotificationDelivered(NotificationDelivered),
    NotificationFailed(NotificationFailed),
    NotificationBounced(NotificationBounced),
    NotificationClicked(NotificationClicked),

    // Analytics events
    PageView(PageView),
    FeatureUsed(FeatureUsed),
    ErrorOccurred(ErrorOccurred),
    PerformanceMetric(PerformanceMetric),
    UserFeedback(UserFeedback),
    ABTestAssignment(ABTestAssignment),
    ABTestConversion(ABTestConversion),

    // Fallback for unknown events
    Unknown,
}

// ---------------------------------------------------------------------------
// USER EVENTS
// ---------------------------------------------------------------------------

#[derive(Debug, Clone)]
pub struct UserCreated {
    pub user_id: Uuid,
    pub email: String,
    pub name: String,
    pub signup_method: String,
    pub referral_code: Option<String>,
    pub accepted_terms_version: String,
    pub accepted_privacy_version: String,
    pub ip_address: Option<String>,
    pub user_agent: Option<String>,
}

#[derive(Debug, Clone)]
pub struct UserUpdated {
    pub user_id: Uuid,
    pub changed_fields: Vec<String>,
    pub previous_values: HashMap<String, serde_json::Value>,
    pub new_values: HashMap<String, serde_json::Value>,
}

#[derive(Debug, Clone)]
pub struct UserDeleted {
    pub user_id: Uuid,
    pub reason: Option<String>,
    pub deletion_type: String,
    pub account_age_days: u64,
    pub data_exported: bool,
}

#[derive(Debug, Clone)]
pub struct UserLoggedIn {
    pub user_id: Uuid,
    pub login_method: String,
    pub ip_address: Option<String>,
    pub device_id: Option<String>,
    pub mfa_used: bool,
    pub session_id: Uuid,
}

#[derive(Debug, Clone)]
pub struct UserLoggedOut {
    pub user_id: Uuid,
    pub session_id: Option<Uuid>,
    pub logout_method: String,
}

#[derive(Debug, Clone)]
pub struct UserPasswordChanged {
    pub user_id: Uuid,
    pub changed_via_reset: bool,
    pub timestamp: Timestamp,
}

#[derive(Debug, Clone)]
pub struct UserPasswordReset {
    pub user_id: Uuid,
    pub reset_method: String,
    pub ip_address: Option<String>,
}

#[derive(Debug, Clone)]
pub struct UserEmailVerified {
    pub user_id: Uuid,
    pub email: String,
    pub verification_method: String,
}

#[derive(Debug, Clone)]
pub struct UserMFAEnabled {
    pub user_id: Uuid,
    pub mfa_type: String,
    pub device_name: Option<String>,
}

#[derive(Debug, Clone)]
pub struct UserMFADisabled {
    pub user_id: Uuid,
    pub reason: Option<String>,
}

#[derive(Debug, Clone)]
pub struct UserMFARecoveryUsed {
    pub user_id: Uuid,
    pub remaining_codes: u32,
}

#[derive(Debug, Clone)]
pub struct UserPermissionsChanged {
    pub user_id: Uuid,
    pub added_permissions: Vec<String>,
    pub removed_permissions: Vec<String>,
    pub changed_by: Uuid,
}

#[derive(Debug, Clone)]
pub struct UserRoleChanged {
    pub user_id: Uuid,
    pub previous_role: String,
    pub new_role: String,
    pub changed_by: Uuid,
}

#[derive(Debug, Clone)]
pub struct UserSuspended {
    pub user_id: Uuid,
    pub reason: String,
    pub suspended_by: Uuid,
    pub duration_hours: Option<u32>,
}

#[derive(Debug, Clone)]
pub struct UserReactivated {
    pub user_id: Uuid,
    pub reactivated_by: Uuid,
    pub reason: Option<String>,
}

// ---------------------------------------------------------------------------
// ORDER EVENTS
// ---------------------------------------------------------------------------

#[derive(Debug, Clone)]
pub struct OrderCreated {
    pub order_id: Uuid,
    pub user_id: Uuid,
    pub account_id: Uuid,
    pub instrument_id: String,
    pub side: String,
    pub order_type: String,
    pub price: Option<FloatBits>,
    pub quantity: FloatBits,
    pub time_in_force: String,
    pub client_order_id: Option<String>,
    pub source: String,
}

#[derive(Debug, Clone)]
pub struct OrderUpdated {
    pub order_id: Uuid,
    pub changed_fields: Vec<String>,
}

#[derive(Debug, Clone)]
pub struct OrderCancelled {
    pub order_id: Uuid,
    pub cancelled_by: String,
    pub reason: Option<String>,
    pub filled_quantity_before_cancel: FloatBits,
}

#[derive(Debug, Clone)]
pub struct OrderFilled {
    pub order_id: Uuid,
    pub fill_price: FloatBits,
    pub fill_quantity: FloatBits,
    pub total_filled_quantity: FloatBits,
    pub remaining_quantity: FloatBits,
    pub trade_id: Uuid,
    pub fees: FloatBits,
    pub fee_currency: String,
}

#[derive(Debug, Clone)]
pub struct OrderPartiallyFilled {
    pub order_id: Uuid,
    pub fill_price: FloatBits,
    pub fill_quantity: FloatBits,
    pub cumulative_quantity: FloatBits,
    pub cumulative_fees: FloatBits,
    pub remaining_quantity: FloatBits,
    pub trade_ids: Vec<Uuid>,
}

#[derive(Debug, Clone)]
pub struct OrderRejected {
    pub order_id: Uuid,
    pub reason: String,
    pub reject_code: String,
}

#[derive(Debug, Clone)]
pub struct OrderExpired {
    pub order_id: Uuid,
    pub unfilled_quantity: FloatBits,
    pub expiry_reason: String,
}

#[derive(Debug, Clone)]
pub struct OrderAmended {
    pub order_id: Uuid,
    pub previous_quantity: FloatBits,
    pub new_quantity: FloatBits,
    pub previous_price: Option<FloatBits>,
    pub new_price: Option<FloatBits>,
}

#[derive(Debug, Clone)]
pub struct OrderSuspended {
    pub order_id: Uuid,
    pub reason: String,
}

#[derive(Debug, Clone)]
pub struct OrderResumed {
    pub order_id: Uuid,
}

// ---------------------------------------------------------------------------
// TRADE EVENTS
// ---------------------------------------------------------------------------

#[derive(Debug, Clone)]
pub struct TradeExecuted {
    pub trade_id: Uuid,
    pub buy_order_id: Uuid,
    pub sell_order_id: Uuid,
    pub instrument_id: String,
    pub price: FloatBits,
    pub quantity: FloatBits,
    pub total: FloatBits,
    pub buyer_user_id: Uuid,
    pub seller_user_id: Uuid,
    pub buyer_account_id: Uuid,
    pub seller_account_id: Uuid,
    pub buyer_fee: FloatBits,
    pub seller_fee: FloatBits,
    pub execution_time: Timestamp,
    pub liquidation: bool,
}

#[derive(Debug, Clone)]
pub struct TradeSettled {
    pub trade_id: Uuid,
    pub settlement_time: Timestamp,
    pub delivery_method: String,
}

#[derive(Debug, Clone)]
pub struct TradeFailed {
    pub trade_id: Uuid,
    pub reason: String,
    pub failure_code: String,
    pub will_retry: bool,
}

#[derive(Debug, Clone)]
pub struct TradeDisputed {
    pub trade_id: Uuid,
    pub disputing_user_id: Uuid,
    pub reason: String,
    pub dispute_id: Uuid,
}

#[derive(Debug, Clone)]
pub struct TradeResolved {
    pub trade_id: Uuid,
    pub resolution: String,
    pub resolved_by: Uuid,
}

#[derive(Debug, Clone)]
pub struct TradeRollback {
    pub trade_id: Uuid,
    pub reason: String,
    pub affected_orders: Vec<Uuid>,
}

// ---------------------------------------------------------------------------
// ACCOUNT EVENTS
// ---------------------------------------------------------------------------

#[derive(Debug, Clone)]
pub struct AccountCreated {
    pub account_id: Uuid,
    pub user_id: Uuid,
    pub account_type: String,
    pub currency: String,
    pub initial_balance: FloatBits,
}

#[derive(Debug, Clone)]
pub struct AccountUpdated {
    pub account_id: Uuid,
    pub changed_fields: Vec<String>,
}

#[derive(Debug, Clone)]
pub struct AccountClosed {
    pub account_id: Uuid,
    pub reason: String,
    pub final_balance: FloatBits,
    pub assets_transferred_to: Option<Uuid>,
}

#[derive(Debug, Clone)]
pub struct AccountFrozen {
    pub account_id: Uuid,
    pub reason: String,
    pub frozen_by: Uuid,
}

#[derive(Debug, Clone)]
pub struct AccountUnfrozen {
    pub account_id: Uuid,
    pub reason: String,
    pub unfrozen_by: Uuid,
}

#[derive(Debug, Clone)]
pub struct AccountDeposit {
    pub account_id: Uuid,
    pub amount: FloatBits,
    pub currency: String,
    pub deposit_method: String,
    pub reference: String,
    pub status: String,
}

#[derive(Debug, Clone)]
pub struct AccountWithdrawal {
    pub account_id: Uuid,
    pub amount: FloatBits,
    pub currency: String,
    pub withdrawal_method: String,
    pub reference: String,
    pub status: String,
    pub fee: FloatBits,
}

#[derive(Debug, Clone)]
pub struct AccountTransfer {
    pub from_account_id: Uuid,
    pub to_account_id: Uuid,
    pub amount: FloatBits,
    pub currency: String,
    pub transfer_type: String,
    pub reference: String,
}

#[derive(Debug, Clone)]
pub struct AccountBalanceChanged {
    pub account_id: Uuid,
    pub previous_balance: FloatBits,
    pub new_balance: FloatBits,
    pub change_amount: FloatBits,
    pub reason: String,
    pub reference_id: Option<Uuid>,
}

#[derive(Debug, Clone)]
pub struct AccountMarginCalled {
    pub account_id: Uuid,
    pub margin_requirement: FloatBits,
    pub account_equity: FloatBits,
    pub margin_shortfall: FloatBits,
    pub deadline: Timestamp,
    pub positions_affected: Vec<String>,
}

#[derive(Debug, Clone)]
pub struct AccountLiquidated {
    pub account_id: Uuid,
    pub liquidation_reason: String,
    pub positions_liquidated: u32,
    pub total_loss: FloatBits,
    pub remaining_balance: FloatBits,
}

// ---------------------------------------------------------------------------
// MARKET EVENTS
// ---------------------------------------------------------------------------

#[derive(Debug, Clone)]
pub struct InstrumentAdded {
    pub instrument_id: String,
    pub symbol: String,
    pub name: String,
    pub instrument_type: String,
    pub exchange: String,
    pub currency: String,
    pub listing_date: Timestamp,
}

#[derive(Debug, Clone)]
pub struct InstrumentUpdated {
    pub instrument_id: String,
    pub changed_fields: Vec<String>,
}

#[derive(Debug, Clone)]
pub struct InstrumentRemoved {
    pub instrument_id: String,
    pub reason: String,
    pub delisting_date: Timestamp,
}

#[derive(Debug, Clone)]
pub struct MarketOpened {
    pub exchange: String,
    pub open_time: Timestamp,
    pub trading_session: String,
}

#[derive(Debug, Clone)]
pub struct MarketClosed {
    pub exchange: String,
    pub close_time: Timestamp,
    pub trading_session: String,
}

#[derive(Debug, Clone)]
pub struct MarketHalted {
    pub exchange: String,
    pub instrument_id: Option<String>,
    pub halt_reason: String,
    pub halt_time: Timestamp,
}

#[derive(Debug, Clone)]
pub struct MarketResumed {
    pub exchange: String,
    pub instrument_id: Option<String>,
    pub resume_time: Timestamp,
}

#[derive(Debug, Clone)]
pub struct CircuitBreakerTriggered {
    pub exchange: String,
    pub trigger_level: String,
    pub price_change_pct: FloatBits,
    pub halt_duration_minutes: u32,
}

#[derive(Debug, Clone)]
pub struct PriceFeedUpdated {
    pub instrument_id: String,
    pub source: String,
    pub bid: FloatBits,
    pub ask: FloatBits,
    pub last: FloatBits,
    pub volume_24h: FloatBits,
    pub sequence: u64,
}

#[derive(Debug, Clone)]
pub struct PriceFeedError {
    pub instrument_id: String,
    pub source: String,
    pub error: String,
    pub will_retry: bool,
}

// ---------------------------------------------------------------------------
// COMPLIANCE EVENTS
// ---------------------------------------------------------------------------

#[derive(Debug, Clone)]
pub struct ComplianceCheckPassed {
    pub check_id: Uuid,
    pub user_id: Uuid,
    pub check_type: String,
    pub reference_id: String,
}

#[derive(Debug, Clone)]
pub struct ComplianceCheckFailed {
    pub check_id: Uuid,
    pub user_id: Uuid,
    pub check_type: String,
    pub reference_id: String,
    pub failure_reason: String,
    pub action_required: String,
}

#[derive(Debug, Clone)]
pub struct ComplianceReviewRequired {
    pub review_id: Uuid,
    pub user_id: Uuid,
    pub reason: String,
    pub assigned_to: Option<Uuid>,
    pub priority: String,
}

#[derive(Debug, Clone)]
pub struct ComplianceViolation {
    pub violation_id: Uuid,
    pub user_id: Uuid,
    pub rule_id: String,
    pub violation_type: String,
    pub severity: String,
    pub details: serde_json::Value,
    pub reported_by: String,
}

#[derive(Debug, Clone)]
pub struct ComplianceReportGenerated {
    pub report_id: Uuid,
    pub report_type: String,
    pub jurisdiction: String,
    pub period_start: Timestamp,
    pub period_end: Timestamp,
    pub record_count: u64,
}

// ---------------------------------------------------------------------------
// SYSTEM EVENTS
// ---------------------------------------------------------------------------

#[derive(Debug, Clone)]
pub struct ServiceStarted {
    pub service_name: String,
    pub version: String,
    pub host: String,
    pub pid: u32,
    pub startup_time_ms: u64,
}

#[derive(Debug, Clone)]
pub struct ServiceStopped {
    pub service_name: String,
    pub reason: String,
    pub uptime_seconds: u64,
}

#[derive(Debug, Clone)]
pub struct ServiceHealthChanged {
    pub service_name: String,
    pub previous_status: String,
    pub new_status: String,
    pub reason: Option<String>,
}

#[derive(Debug, Clone)]
pub struct ConfigChanged {
    pub service_name: String,
    pub config_key: String,
    pub previous_value: Option<serde_json::Value>,
    pub new_value: Option<serde_json::Value>,
    pub changed_by: String,
}

#[derive(Debug, Clone)]
pub struct DeploymentStarted {
    pub deployment_id: Uuid,
    pub service_name: String,
    pub version: String,
    pub strategy: String,
    pub triggered_by: String,
}

#[derive(Debug, Clone)]
pub struct DeploymentCompleted {
    pub deployment_id: Uuid,
    pub service_name: String,
    pub version: String,
    pub duration_seconds: u64,
    pub healthy_instances: u32,
}

#[derive(Debug, Clone)]
pub struct DeploymentFailed {
    pub deployment_id: Uuid,
    pub service_name: String,
    pub version: String,
    pub reason: String,
    pub rollback_initiated: bool,
}

#[derive(Debug, Clone)]
pub struct BackupCompleted {
    pub backup_id: Uuid,
    pub backup_type: String,
    pub size_bytes: u64,
    pub duration_seconds: u64,
    pub location: String,
}

#[derive(Debug, Clone)]
pub struct BackupFailed {
    pub backup_id: Uuid,
    pub backup_type: String,
    pub reason: String,
}

#[derive(Debug, Clone)]
pub struct MaintenanceStarted {
    pub maintenance_id: Uuid,
    pub service_name: String,
    pub reason: String,
    pub estimated_duration_minutes: u32,
}

#[derive(Debug, Clone)]
pub struct MaintenanceCompleted {
    pub maintenance_id: Uuid,
    pub service_name: String,
    pub actual_duration_minutes: u32,
}

// ---------------------------------------------------------------------------
// AUDIT EVENTS
// ---------------------------------------------------------------------------

#[derive(Debug, Clone)]
pub struct AuditTrailEntry {
    pub audit_id: Uuid,
    pub user_id: Option<Uuid>,
    pub action: String,
    pub resource_type: String,
    pub resource_id: String,
    pub changes: serde_json::Value,
    pub ip_address: Option<String>,
}

#[derive(Debug, Clone)]
pub struct DataAccessAudit {
    pub audit_id: Uuid,
    pub user_id: Uuid,
    pub access_type: String,
    pub data_type: String,
    pub data_ids: Vec<String>,
    pub purpose: String,
    pub authorized: bool,
}

#[derive(Debug, Clone)]
pub struct PermissionChangeAudit {
    pub audit_id: Uuid,
    pub target_user_id: Uuid,
    pub changed_by: Uuid,
    pub changes: Vec<String>,
}

#[derive(Debug, Clone)]
pub struct ConfigChangeAudit {
    pub audit_id: Uuid,
    pub service_name: String,
    pub config_path: String,
    pub old_value: serde_json::Value,
    pub new_value: serde_json::Value,
    pub changed_by: String,
}

#[derive(Debug, Clone)]
pub struct SecurityEvent {
    pub event_id: Uuid,
    pub event_type: String,
    pub severity: String,
    pub user_id: Option<Uuid>,
    pub ip_address: Option<String>,
    pub details: serde_json::Value,
    pub detected_by: String,
}

// ---------------------------------------------------------------------------
// NOTIFICATION EVENTS
// ---------------------------------------------------------------------------

#[derive(Debug, Clone)]
pub struct NotificationSent {
    pub notification_id: Uuid,
    pub user_id: Uuid,
    pub channel: String,
    pub template_id: String,
    pub subject: String,
}

#[derive(Debug, Clone)]
pub struct NotificationDelivered {
    pub notification_id: Uuid,
    pub user_id: Uuid,
    pub channel: String,
    pub delivery_time: Timestamp,
    pub provider_response: Option<String>,
}

#[derive(Debug, Clone)]
pub struct NotificationFailed {
    pub notification_id: Uuid,
    pub user_id: Uuid,
    pub channel: String,
    pub reason: String,
    pub will_retry: bool,
}

#[derive(Debug, Clone)]
pub struct NotificationBounced {
    pub notification_id: Uuid,
    pub user_id: Uuid,
    pub channel: String,
    pub bounce_type: String,
    pub bounce_reason: String,
    pub permanent: bool,
}

#[derive(Debug, Clone)]
pub struct NotificationClicked {
    pub notification_id: Uuid,
    pub user_id: Uuid,
    pub channel: String,
    pub target_url: String,
    pub click_time: Timestamp,
}

// ---------------------------------------------------------------------------
// ANALYTICS EVENTS
// ---------------------------------------------------------------------------

#[derive(Debug, Clone)]
pub struct PageView {
    pub page_id: String,
    pub user_id: Option<Uuid>,
    pub session_id: Uuid,
    pub url: String,
    pub referrer: Option<String>,
    pub duration_ms: u64,
    pub device_type: String,
    pub browser: String,
    pub os: String,
    pub screen_resolution: String,
}

#[derive(Debug, Clone)]
pub struct FeatureUsed {
    pub user_id: Option<Uuid>,
    pub feature_name: String,
    pub feature_group: String,
    pub properties: HashMap<String, String>,
}

#[derive(Debug, Clone)]
pub struct ErrorOccurred {
    pub error_id: Uuid,
    pub user_id: Option<Uuid>,
    pub error_type: String,
    pub error_message: String,
    pub stack_trace: Option<String>,
    pub component: String,
    pub severity: String,
}

#[derive(Debug, Clone)]
pub struct PerformanceMetric {
    pub metric_name: String,
    pub metric_value: FloatBits,
    pub unit: String,
    pub tags: HashMap<String, String>,
}

#[derive(Debug, Clone)]
pub struct UserFeedback {
    pub feedback_id: Uuid,
    pub user_id: Option<Uuid>,
    pub feedback_type: String,
    pub rating: u8,
    pub comment: Option<String>,
    pub page_url: Option<String>,
}

#[derive(Debug, Clone)]
pub struct ABTestAssignment {
    pub user_id: Uuid,
    pub experiment_id: String,
    pub variant: String,
    pub assignment_time: Timestamp,
}

#[derive(Debug, Clone)]
pub struct ABTestConversion {
    pub user_id: Uuid,
    pub experiment_id: String,
    pub variant: String,
    pub conversion_event: String,
    pub conversion_time: Timestamp,
}

/// The schema version of the family of events that a payload of this kind
/// belongs to (see `schema_versions`); a payload of a kind not known here
/// (`Unknown`) gets 1, the first version of any schema.
pub open spec fn payload_schema_version(p: EventPayload) -> u32 {
    match p {
        EventPayload::UserCreated(_) |
            EventPayload::UserUpdated(_) |
            EventPayload::UserDeleted(_) |
            EventPayload::UserLoggedIn(_) |
            EventPayload::UserLoggedOut(_) |
            EventPayload::UserPasswordChanged(_) |
            EventPayload::UserPasswordReset(_) |
            EventPayload::UserEmailVerified(_) |
            EventPayload::UserMFAEnabled(_) |
            EventPayload::UserMFADisabled(_) |
            EventPayload::UserMFARecoveryUsed(_) |
            EventPayload::UserPermissionsChanged(_) |
            EventPayload::UserRoleChanged(_) |
            EventPayload::UserSuspended(_) |
            EventPayload::UserReactivated(_) => schema_versions::USER_EVENT,
        EventPayload::OrderCreated(_) |
            EventPayload::OrderUpdated(_) |
            EventPayload::OrderCancelled(_) |
            EventPayload::OrderFilled(_) |
            EventPayload::OrderPartiallyFilled(_) |
            EventPayload::OrderRejected(_) |
            EventPayload::OrderExpired(_) |
            EventPayload::OrderAmended(_) |
            EventPayload::OrderSuspended(_) |
            EventPayload::OrderResumed(_) => schema_versions::ORDER_EVENT,
        EventPayload::TradeExecuted(_) |
            EventPayload::TradeSettled(_) |
            EventPayload::TradeFailed(_) |
            EventPayload::TradeDisputed(_) |
            EventPayload::TradeResolved(_) |
            EventPayload::TradeRollback(_) => schema_versions::TRADE_EVENT,
        EventPayload::AccountCreated(_) |
            EventPayload::AccountUpdated(_) |
            EventPayload::AccountClosed(_) |
            EventPayload::AccountFrozen(_) |
            EventPayload::AccountUnfrozen(_) |
            EventPayload::AccountDeposit(_) |
            EventPayload::AccountWithdrawal(_) |
            EventPayload::AccountTransfer(_) |
            EventPayload::AccountBalanceChanged(_) |
            EventPayload::AccountMarginCalled(_) |
            EventPayload::AccountLiquidated(_) => schema_versions::ACCOUNT_EVENT,
        EventPayload::InstrumentAdded(_) |
            EventPayload::InstrumentUpdated(_) |
            EventPayload::InstrumentRemoved(_) |
            EventPayload::MarketOpened(_) |
            EventPayload::MarketClosed(_) |
            EventPayload::MarketHalted(_) |
            EventPayload::MarketResumed(_) |
            EventPayload::CircuitBreakerTriggered(_) |
            EventPayload::PriceFeedUpdated(_) |
            EventPayload::PriceFeedError(_) => schema_versions::MARKET_EVENT,
        EventPayload::ComplianceCheckPassed(_) |
            EventPayload::ComplianceCheckFailed(_) |
            EventPayload::ComplianceReviewRequired(_) |
            EventPayload::ComplianceViolation(_) |
            EventPayload::ComplianceReportGenerated(_) => schema_versions::COMPLIANCE_EVENT,
        EventPayload::ServiceStarted(_) |
            EventPayload::ServiceStopped(_) |
            EventPayload::ServiceHealthChanged(_) |
            EventPayload::ConfigChanged(_) |
            EventPayload::DeploymentStarted(_) |
            EventPayload::DeploymentCompleted(_) |
            EventPayload::DeploymentFailed(_) |
            EventPayload::BackupCompleted(_) |
            EventPayload::BackupFailed(_) |
            EventPayload::MaintenanceStarted(_) |
            EventPayload::MaintenanceCompleted(_) => schema_versions::SYSTEM_EVENT,
        EventPayload::AuditTrailEntry(_) |
            EventPayload::DataAccessAudit(_) |
            EventPayload::PermissionChangeAudit(_) |
            EventPayload::ConfigChangeAudit(_) |
            EventPayload::SecurityEvent(_) => schema_versions::AUDIT_EVENT,
        EventPayload::NotificationSent(_) |
            EventPayload::NotificationDelivered(_) |
            EventPayload::NotificationFailed(_) |
            EventPayload::NotificationBounced(_) |
            EventPayload::NotificationClicked(_) => schema_versions::NOTIFICATION_EVENT,
        EventPayload::PageView(_) |
            EventPayload::FeatureUsed(_) |
            EventPayload::ErrorOccurred(_) |
            EventPayload::PerformanceMetric(_) |
            EventPayload::UserFeedback(_) |
            EventPayload::ABTestAssignment(_) |
            EventPayload::ABTestConversion(_) => schema_versions::ANALYTICS_EVENT,
        EventPayload::Unknown => 1,
    }
}

impl EventPayload {
    /// The schema version of the family of events that this payload's kind
    /// belongs to; 1 for `Unknown`.
    pub fn schema_version(&self) -> (r: u32)
        ensures
            r == payload_schema_version(*self),
            (*self is UserCreated
                || *self is UserUpdated
                || *self is UserDeleted
                || *self is UserLoggedIn
                || *self is UserLoggedOut
                || *self is UserPasswordChanged
                || *self is UserPasswordReset
                || *self is UserEmailVerified
                || *self is UserMFAEnabled
                || *self is UserMFADisabled
                || *self is UserMFARecoveryUsed
                || *self is UserPermissionsChanged
                || *self is UserRoleChanged
                || *self is UserSuspended
                || *self is UserReactivated) ==> r == schema_versions::USER_EVENT,
            (*self is OrderCreated
                || *self is OrderUpdated
                || *self is OrderCancelled
                || *self is OrderFilled
                || *self is OrderPartiallyFilled
                || *self is OrderRejected
                || *self is OrderExpired
                || *self is OrderAmended
                || *self is OrderSuspended
                || *self is OrderResumed) ==> r == schema_versions::ORDER_EVENT,
            (*self is TradeExecuted
                || *self is TradeSettled
                || *self is TradeFailed
                || *self is TradeDisputed
                || *self is TradeResolved
                || *self is TradeRollback) ==> r == schema_versions::TRADE_EVENT,
            (*self is AccountCreated
                || *self is AccountUpdated
                || *self is AccountClosed
                || *self is AccountFrozen
                || *self is AccountUnfrozen
                || *self is AccountDeposit
                || *self is AccountWithdrawal
                || *self is AccountTransfer
                || *self is AccountBalanceChanged
                || *self is AccountMarginCalled
                || *self is AccountLiquidated) ==> r == schema_versions::ACCOUNT_EVENT,
            (*self is InstrumentAdded
                || *self is InstrumentUpdated
                || *self is InstrumentRemoved
                || *self is MarketOpened
                || *self is MarketClosed
                || *self is MarketHalted
                || *self is MarketResumed
                || *self is CircuitBreakerTriggered
                || *self is PriceFeedUpdated
                || *self is PriceFeedError) ==> r == schema_versions::MARKET_EVENT,
            (*self is ComplianceCheckPassed
                || *self is ComplianceCheckFailed
                || *self is ComplianceReviewRequired
                || *self is ComplianceViolation
                || *self is ComplianceReportGenerated) ==> r == schema_versions::COMPLIANCE_EVENT,
            (*self is ServiceStarted
                || *self is ServiceStopped
                || *self is ServiceHealthChanged
                || *self is ConfigChanged
                || *self is DeploymentStarted
                || *self is DeploymentCompleted
                || *self is DeploymentFailed
                || *self is BackupCompleted
                || *self is BackupFailed
                || *self is MaintenanceStarted
                || *self is MaintenanceCompleted) ==> r == schema_versions::SYSTEM_EVENT,
            (*self is AuditTrailEntry
                || *self is DataAccessAudit
                || *self is PermissionChangeAudit
                || *self is ConfigChangeAudit
                || *self is SecurityEvent) ==> r == schema_versions::AUDIT_EVENT,
            (*self is NotificationSent
                || *self is NotificationDelivered
                || *self is NotificationFailed
                || *self is NotificationBounced
                || *self is NotificationClicked) ==> r == schema_versions::NOTIFICATION_EVENT,
            (*self is PageView
                || *self is FeatureUsed
                || *self is ErrorOccurred
                || *self is PerformanceMetric
                || *self is UserFeedback
                || *self is ABTestAssignment
                || *self is ABTestConversion) ==> r == schema_versions::ANALYTICS_EVENT,
            *self is Unknown ==> r == 1,
    {
        match self {
            EventPayload::UserCreated(_) |
                EventPayload::UserUpdated(_) |
                EventPayload::UserDeleted(_) |
                EventPayload::UserLoggedIn(_) |
                EventPayload::UserLoggedOut(_) |
                EventPayload::UserPasswordChanged(_) |
                EventPayload::UserPasswordReset(_) |
                EventPayload::UserEmailVerified(_) |
                EventPayload::UserMFAEnabled(_) |
                EventPayload::UserMFADisabled(_) |
                EventPayload::UserMFARecoveryUsed(_) |
                EventPayload::UserPermissionsChanged(_) |
                EventPayload::UserRoleChanged(_) |
                EventPayload::UserSuspended(_) |
                EventPayload::UserReactivated(_) => schema_versions::USER_EVENT,
            EventPayload::OrderCreated(_) |
                EventPayload::OrderUpdated(_) |
                EventPayload::OrderCancelled(_) |
                EventPayload::OrderFilled(_) |
                EventPayload::OrderPartiallyFilled(_) |
                EventPayload::OrderRejected(_) |
                EventPayload::OrderExpired(_) |
                EventPayload::OrderAmended(_) |
                EventPayload::OrderSuspended(_) |
                EventPayload::OrderResumed(_) => schema_versions::ORDER_EVENT,
            EventPayload::TradeExecuted(_) |
                EventPayload::TradeSettled(_) |
                EventPayload::TradeFailed(_) |
                EventPayload::TradeDisputed(_) |
                EventPayload::TradeResolved(_) |
                EventPayload::TradeRollback(_) => schema_versions::TRADE_EVENT,
            EventPayload::AccountCreated(_) |
                EventPayload::AccountUpdated(_) |
                EventPayload::AccountClosed(_) |
                EventPayload::AccountFrozen(_) |
                EventPayload::AccountUnfrozen(_) |
                EventPayload::AccountDeposit(_) |
                EventPayload::AccountWithdrawal(_) |
                EventPayload::AccountTransfer(_) |
                EventPayload::AccountBalanceChanged(_) |
                EventPayload::AccountMarginCalled(_) |
                EventPayload::AccountLiquidated(_) => schema_versions::ACCOUNT_EVENT,
            EventPayload::InstrumentAdded(_) |
                EventPayload::InstrumentUpdated(_) |
                EventPayload::InstrumentRemoved(_) |
                EventPayload::MarketOpened(_) |
                EventPayload::MarketClosed(_) |
                EventPayload::MarketHalted(_) |
                EventPayload::MarketResumed(_) |
                EventPayload::CircuitBreakerTriggered(_) |
                EventPayload::PriceFeedUpdated(_) |
                EventPayload::PriceFeedError(_) => schema_versions::MARKET_EVENT,
            EventPayload::ComplianceCheckPassed(_) |
                EventPayload::ComplianceCheckFailed(_) |
                EventPayload::ComplianceReviewRequired(_) |
                EventPayload::ComplianceViolation(_) |
                EventPayload::ComplianceReportGenerated(_) => schema_versions::COMPLIANCE_EVENT,
            EventPayload::ServiceStarted(_) |
                EventPayload::ServiceStopped(_) |
                EventPayload::ServiceHealthChanged(_) |
                EventPayload::ConfigChanged(_) |
                EventPayload::DeploymentStarted(_) |
                EventPayload::DeploymentCompleted(_) |
                EventPayload::DeploymentFailed(_) |
                EventPayload::BackupCompleted(_) |
                EventPayload::BackupFailed(_) |
                EventPayload::MaintenanceStarted(_) |
                EventPayload::MaintenanceCompleted(_) => schema_versions::SYSTEM_EVENT,
            EventPayload::AuditTrailEntry(_) |
                EventPayload::DataAccessAudit(_) |
                EventPayload::PermissionChangeAudit(_) |
                EventPayload::ConfigChangeAudit(_) |
                EventPayload::SecurityEvent(_) => schema_versions::AUDIT_EVENT,
            EventPayload::NotificationSent(_) |
                EventPayload::NotificationDelivered(_) |
                EventPayload::NotificationFailed(_) |
                EventPayload::NotificationBounced(_) |
                EventPayload::NotificationClicked(_) => schema_versions::NOTIFICATION_EVENT,
            EventPayload::PageView(_) |
                EventPayload::FeatureUsed(_) |
                EventPayload::ErrorOccurred(_) |
                EventPayload::PerformanceMetric(_) |
                EventPayload::UserFeedback(_) |
                EventPayload::ABTestAssignment(_) |
                EventPayload::ABTestConversion(_) => schema_versions::ANALYTICS_EVENT,
            EventPayload::Unknown => 1,
        }
    }
}

/// Every payload carries the schema version of the family its kind belongs
/// to: the user kinds `USER_EVENT`, the order kinds `ORDER_EVENT`, the trade
/// kinds `TRADE_EVENT`, and so on for each family; a kind not known here
/// (`Unknown`) carries 1.
pub proof fn lemma_schema_version_of_each_family(p: EventPayload)
    ensures
        (p is UserCreated
            || p is UserUpdated
            || p is UserDeleted
            || p is UserLoggedIn
            || p is UserLoggedOut
            || p is UserPasswordChanged
            || p is UserPasswordReset
            || p is UserEmailVerified
            || p is UserMFAEnabled
            || p is UserMFADisabled
            || p is UserMFARecoveryUsed
            || p is UserPermissionsChanged
            || p is UserRoleChanged
            || p is UserSuspended
            || p is UserReactivated) ==> payload_schema_version(p) == schema_versions::USER_EVENT,
        (p is OrderCreated
            || p is OrderUpdated
            || p is OrderCancelled
            || p is OrderFilled
            || p is OrderPartiallyFilled
            || p is OrderRejected
            || p is OrderExpired
            || p is OrderAmended
            || p is OrderSuspended
            || p is OrderResumed) ==> payload_schema_version(p) == schema_versions::ORDER_EVENT,
        (p is TradeExecuted
            || p is TradeSettled
            || p is TradeFailed
            || p is TradeDisputed
            || p is TradeResolved
            || p is TradeRollback) ==> payload_schema_version(p) == schema_versions::TRADE_EVENT,
        (p is AccountCreated
            || p is AccountUpdated
            || p is AccountClosed
            || p is AccountFrozen
            || p is AccountUnfrozen
            || p is AccountDeposit
            || p is AccountWithdrawal
            || p is AccountTransfer
            || p is AccountBalanceChanged
            || p is AccountMarginCalled
            || p is AccountLiquidated) ==> payload_schema_version(p) == schema_versions::ACCOUNT_EVENT,
        (p is InstrumentAdded
            || p is InstrumentUpdated
            || p is InstrumentRemoved
            || p is MarketOpened
            || p is MarketClosed
            || p is MarketHalted
            || p is MarketResumed
            || p is CircuitBreakerTriggered
            || p is PriceFeedUpdated
            || p is PriceFeedError) ==> payload_schema_version(p) == schema_versions::MARKET_EVENT,
        (p is ComplianceCheckPassed
            || p is ComplianceCheckFailed
            || p is ComplianceReviewRequired
            || p is ComplianceViolation
            || p is ComplianceReportGenerated) ==> payload_schema_version(p) == schema_versions::COMPLIANCE_EVENT,
        (p is ServiceStarted
            || p is ServiceStopped
            || p is ServiceHealthChanged
            || p is ConfigChanged
            || p is DeploymentStarted
            || p is DeploymentCompleted
            || p is DeploymentFailed
            || p is BackupCompleted
            || p is BackupFailed
            || p is MaintenanceStarted
            || p is MaintenanceCompleted) ==> payload_schema_version(p) == schema_versions::SYSTEM_EVENT,
        (p is AuditTrailEntry
            || p is DataAccessAudit
            || p is PermissionChangeAudit
            || p is ConfigChangeAudit
            || p is SecurityEvent) ==> payload_schema_version(p) == schema_versions::AUDIT_EVENT,
        (p is NotificationSent
            || p is NotificationDelivered
            || p is NotificationFailed
            || p is NotificationBounced
            || p is NotificationClicked) ==> payload_schema_version(p) == schema_versions::NOTIFICATION_EVENT,
        (p is PageView
            || p is FeatureUsed
            || p is ErrorOccurred
            || p is PerformanceMetric
            || p is UserFeedback
            || p is ABTestAssignment
            || p is ABTestConversion) ==> payload_schema_version(p) == schema_versions::ANALYTICS_EVENT,
        p is Unknown ==> payload_schema_version(p) == 1,
{
}

} // verus!

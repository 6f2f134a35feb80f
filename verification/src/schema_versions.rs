//! Schema version of each family of events.
//!
//! A version MUST be incremented with every backward-incompatible change to
//! the events of its family. Backward-compatible changes (adding optional
//! fields) need no new version, but SHOULD be noted in the changelog.
use vstd::prelude::*;

verus! {

pub const USER_EVENT: u32 = 3;

pub const ORDER_EVENT: u32 = 5;

pub const TRADE_EVENT: u32 = 4;

pub const ACCOUNT_EVENT: u32 = 2;

pub const MARKET_EVENT: u32 = 6;

pub const COMPLIANCE_EVENT: u32 = 1;

pub const SYSTEM_EVENT: u32 = 3;

pub const AUDIT_EVENT: u32 = 2;

pub const NOTIFICATION_EVENT: u32 = 2;

pub const ANALYTICS_EVENT: u32 = 4;

} // verus!

//! Limits and periods that the marketplace runs by.
use vstd::prelude::*;

verus! {

/// Days after which a finished order is archived.
pub const AUTO_ARCHIVE_DAYS: i64 = 30;

/// Days after which a payment authorization lapses.
pub const AUTHORIZATION_EXPIRY_DAYS: i64 = 6;

/// Hours after which a rate limit record is stale.
pub const RATE_LIMIT_STALE_HOURS: i64 = 2;

/// Days that webhook events are kept for.
pub const WEBHOOK_EVENT_RETENTION_DAYS: i64 = 7;

/// Days after which a resolved security alert is archived.
pub const SECURITY_ALERT_ARCHIVE_DAYS: i64 = 90;

/// Attempts at a search index update before it is given up.
pub const MEILISEARCH_DLQ_MAX_RETRIES: u64 = 3;

/// Hours between two low-stock digests to one seller.
pub const LOW_STOCK_ALERT_COOLDOWN_HOURS: i64 = 23;

/// Hours after a checkout in which a cart does not count as abandoned.
pub const ABANDONED_CART_HOURS: i64 = 24;

/// Hours between two abandoned-cart emails to one buyer.
pub const ABANDONED_CART_COOLDOWN_HOURS: i64 = 72;

/// Days that a seller has to answer a return request.
pub const RETURN_ESCALATION_DAYS: i64 = 7;

/// Hours that trending products are scored over.
pub const TRENDING_WINDOW_HOURS: i64 = 24;

/// Minutes that a download link works for.
pub const DOWNLOAD_TOKEN_MINUTES: i64 = 15;

/// Devices that a license may be active on where it names no limit itself.
pub const MAX_DEVICES_PER_LICENSE: u64 = 3;

} // verus!

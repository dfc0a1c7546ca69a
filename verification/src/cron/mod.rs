//! Scheduled jobs: when each runs, and what it selects, computes and writes.
use vstd::prelude::*;

use crate::json;
use crate::json::json_of;
use crate::rules;
use crate::text;
use crate::time;
use crate::time::Timestamp;

pub mod carts;
pub mod cleanup;
pub mod expiry;
pub mod lock;
pub mod metrics;
pub mod notices;
pub mod notifications;
pub mod payouts;
pub mod recommendations;
pub mod search;
pub mod stock;
pub mod subscriptions;
pub mod trending;

verus! {

/// The `i64` at member `field`, 0 where there is none.
pub fn i64_field(v: &serde_json::Value, field: &str) -> (r: i64)
    ensures
        r == json::int_at_or(json_of(*v), field@, 0),
{
    json::int_field_or(v, field, 0)
}

/// A record identifier without the table that it may be prefixed with.
pub fn normalize_record_id(raw_id: &str) -> (r: &str)
    ensures
        r@ == text::after_first(raw_id@, ':'),
{
    text::suffix_after_first(raw_id, ':')
}

/// The days of orders that seller metrics look back on.
pub const METRICS_WINDOW_DAYS: i64 = 7;

/// The days of orders that recommendations look back on.
pub const CO_PURCHASE_WINDOW_DAYS: i64 = 90;

/// The instant that seller metrics look back to.
pub fn metrics_window_start(now: Timestamp) -> (r: Timestamp)
    requires
        now.of_clock(),
    ensures
        r == now.earlier_by(METRICS_WINDOW_DAYS * time::DAY_SECS),
{
    now.minus_seconds(METRICS_WINDOW_DAYS * time::DAY_SECS)
}

/// The instant that recommendations look back to.
pub fn co_purchase_window_start(now: Timestamp) -> (r: Timestamp)
    requires
        now.of_clock(),
    ensures
        r == now.earlier_by(CO_PURCHASE_WINDOW_DAYS * time::DAY_SECS),
{
    now.minus_seconds(CO_PURCHASE_WINDOW_DAYS * time::DAY_SECS)
}

/// The instant that trending products look back to.
pub fn trending_window_start(now: Timestamp) -> (r: Timestamp)
    requires
        now.of_clock(),
    ensures
        r == now.earlier_by(rules::TRENDING_WINDOW_HOURS * time::HOUR_SECS),
{
    now.minus_seconds(rules::TRENDING_WINDOW_HOURS * time::HOUR_SECS)
}

// ------------------------------------------------------------------- schedule

/// A job and when it runs, as a cron expression.
#[derive(Debug, Clone, Copy)]
pub struct JobSchedule {
    pub name: &'static str,
    pub schedule: &'static str,
    /// The minutes for which a run keeps others out, where it does.
    pub lock_minutes: Option<i64>,
}

/// `v[i]` is the job `name`, run by `schedule`, with a lock of `lock` minutes.
pub open spec fn is_job(
    v: Seq<JobSchedule>,
    i: int,
    name: Seq<char>,
    schedule: Seq<char>,
    lock: Option<i64>,
) -> bool {
    v[i].name@ == name && v[i].schedule@ == schedule && v[i].lock_minutes == lock
}

fn job(name: &'static str, schedule: &'static str, lock_minutes: Option<i64>) -> (r: JobSchedule)
    ensures
        r.name@ == name@,
        r.schedule@ == schedule@,
        r.lock_minutes == lock_minutes,
{
    JobSchedule { name, schedule, lock_minutes }
}

/// All scheduled jobs.
pub fn job_schedules() -> (v: Vec<JobSchedule>)
    ensures
        v@.len() == 18,
        is_job(v@, 0, "auto_capture_confirmed_receipts"@, "*/5 * * * *"@, Some(30)),
        is_job(v@, 1, "check_expired_authorizations"@, "*/5 * * * *"@, Some(30)),
        is_job(v@, 2, "auto_archive_old_orders"@, "0 */6 * * *"@, Some(30)),
        is_job(v@, 3, "monitor_meilisearch_sync"@, "*/5 * * * *"@, None),
        is_job(v@, 4, "cleanup_stale_rate_limits"@, "*/15 * * * *"@, Some(35)),
        is_job(v@, 5, "cleanup_orphaned_r2_images"@, "0 */12 * * *"@, Some(30)),
        is_job(v@, 6, "cleanup_stale_webhook_events"@, "0 */6 * * *"@, Some(30)),
        is_job(v@, 7, "cleanup_stale_security_alerts"@, "0 */6 * * *"@, Some(30)),
        is_job(v@, 8, "retry_failed_meilisearch_syncs"@, "*/5 * * * *"@, Some(30)),
        is_job(v@, 9, "check_low_stock_alerts"@, "0 */2 * * *"@, Some(30)),
        is_job(v@, 10, "send_abandoned_cart_emails"@, "0 * * * *"@, Some(30)),
        is_job(v@, 11, "compute_seller_metrics"@, "0 0 * * *"@, Some(60)),
        is_job(v@, 12, "compute_trending_products"@, "0 * * * *"@, Some(30)),
        is_job(v@, 13, "sync_expired_subscriptions"@, "0 * * * *"@, Some(30)),
        is_job(v@, 14, "escalate_stale_return_requests"@, "0 */2 * * *"@, Some(30)),
        is_job(v@, 15, "send_premium_renewal_reminders"@, "0 8 * * *"@, Some(30)),
        is_job(v@, 16, "drain_pending_notifications"@, "*/2 * * * *"@, Some(5)),
        is_job(v@, 17, "compute_co_purchase_recommendations"@, "0 3 * * *"@, Some(60)),
{
    let mut v: Vec<JobSchedule> = Vec::new();
    v.push(job("auto_capture_confirmed_receipts", "*/5 * * * *", Some(30)));
    v.push(job("check_expired_authorizations", "*/5 * * * *", Some(30)));
    v.push(job("auto_archive_old_orders", "0 */6 * * *", Some(30)));
    v.push(job("monitor_meilisearch_sync", "*/5 * * * *", None));
    v.push(job("cleanup_stale_rate_limits", "*/15 * * * *", Some(35)));
    v.push(job("cleanup_orphaned_r2_images", "0 */12 * * *", Some(30)));
    v.push(job("cleanup_stale_webhook_events", "0 */6 * * *", Some(30)));
    v.push(job("cleanup_stale_security_alerts", "0 */6 * * *", Some(30)));
    v.push(job("retry_failed_meilisearch_syncs", "*/5 * * * *", Some(30)));
    v.push(job("check_low_stock_alerts", "0 */2 * * *", Some(30)));
    v.push(job("send_abandoned_cart_emails", "0 * * * *", Some(30)));
    v.push(job("compute_seller_metrics", "0 0 * * *", Some(60)));
    v.push(job("compute_trending_products", "0 * * * *", Some(30)));
    v.push(job("sync_expired_subscriptions", "0 * * * *", Some(30)));
    v.push(job("escalate_stale_return_requests", "0 */2 * * *", Some(30)));
    v.push(job("send_premium_renewal_reminders", "0 8 * * *", Some(30)));
    v.push(job("drain_pending_notifications", "*/2 * * * *", Some(5)));
    v.push(job("compute_co_purchase_recommendations", "0 3 * * *", Some(60)));
    v
}

} // verus!

//! Settings that administrators can look up.
use vstd::prelude::*;

verus! {

/// How long records are kept, in days.
#[derive(Debug, Clone, Copy, PartialEq, Eq)]
pub struct RetentionConfig {
    pub webhook_event_retention_days: u32,
    pub email_log_retention_days: u32,
    pub audit_log_retention_days: u32,
}

/// How long records are kept.
pub fn get_retention_config() -> (r: RetentionConfig)
    ensures
        r.webhook_event_retention_days == 90,
        r.email_log_retention_days == 30,
        r.audit_log_retention_days == 365,
{
    RetentionConfig {
        webhook_event_retention_days: 90,
        email_log_retention_days: 30,
        audit_log_retention_days: 365,
    }
}

} // verus!

//! Locks that keep two runs of one job apart, and the record of a failed run.
use vstd::prelude::*;
use vstd::utf8::*;

use crate::fields;
use crate::json;
use crate::json::{json_of, Json};
use crate::text;
use crate::time;
use crate::time::{read_instant, stored_instant, Timestamp};

verus! {

/// A lock document keeps others out at `now`: it says that the job runs, and
/// it was taken less than `ttl_minutes` ago.
pub open spec fn lock_held(doc: Json, now: Timestamp, ttl_minutes: int) -> bool {
    &&& stored_instant(doc, fields::LOCKED_AT@) matches Some(t) && t.is_after(
        now.earlier_by(ttl_minutes * 60),
    )
    &&& json::text_at(doc, fields::STATUS@) == Some("running"@)
}

/// Whether a lock document, `null` for none, keeps others out at `now`.
pub fn lock_is_held(doc: &serde_json::Value, now: Timestamp, ttl_minutes: i64) -> (r: bool)
    requires
        now.of_clock(),
        time::in_calendar_range(now.secs - ttl_minutes * 60),
    ensures
        r == lock_held(json_of(*doc), now, ttl_minutes as int),
{
    let cutoff = Timestamp { secs: now.secs - ttl_minutes * 60, nanos: now.nanos };
    if let Some(t) = read_instant(doc, fields::LOCKED_AT) {
        if t.after(cutoff) {
            if let Some(s) = json::text_field(doc, fields::STATUS) {
                return text::same(s, "running");
            }
        }
    }
    false
}

/// A lock as it is taken.
pub struct LockRecord {
    pub locked_at: String,
    pub locked_by: String,
    pub status: String,
}

/// `r` is the lock of a job, taken at `stamp`.
pub open spec fn takes_lock(r: LockRecord, job_name: Seq<char>, stamp: Seq<char>) -> bool {
    &&& r.locked_at@ == stamp
    &&& r.locked_by@ == "cron_"@ + job_name
    &&& r.status@ == "running"@
}

/// The document of a lock taken at `now`.
pub fn taken_lock(job_name: &str, now: Timestamp) -> (r: LockRecord)
    requires
        now.of_clock(),
    ensures
        takes_lock(r, job_name@, time::rfc3339_text(now)),
        time::in_common_years(now) ==> time::rfc3339_instant(r.locked_at@) == Some(now),
{
    LockRecord {
        locked_at: time::to_rfc3339(now),
        locked_by: text::join2("cron_", job_name),
        status: "running".to_owned(),
    }
}

/// What releasing a lock changes on it.
pub struct LockRelease {
    pub status: String,
    pub completed_at: String,
}

/// The change that releases a lock at `now`.
pub fn released_lock(now: Timestamp) -> (r: LockRelease)
    requires
        now.of_clock(),
    ensures
        r.status@ == "completed"@,
        r.completed_at@ == time::rfc3339_text(now),
{
    LockRelease { status: "completed".to_owned(), completed_at: time::to_rfc3339(now) }
}

/// The most bytes of an error message that are kept.
pub const MAX_FAILURE_MESSAGE: usize = 2000;

/// The record of a failed run.
pub struct FailureRecord {
    pub job_name: String,
    pub error_message: String,
    pub created_at: String,
}

/// The record of a run of `job_name` that failed with `error_msg`, cut after
/// its first 2000 bytes.
pub fn failure_record(job_name: &str, error_msg: &str, now: Timestamp) -> (r: FailureRecord)
    requires
        now.of_clock(),
        encode_utf8(error_msg@).len() > MAX_FAILURE_MESSAGE ==> is_char_boundary(
            encode_utf8(error_msg@),
            MAX_FAILURE_MESSAGE as int,
        ),
    ensures
        r.job_name@ == job_name@,
        encode_utf8(error_msg@).len() <= MAX_FAILURE_MESSAGE ==> r.error_message@ == error_msg@,
        encode_utf8(error_msg@).len() > MAX_FAILURE_MESSAGE ==> encode_utf8(r.error_message@)
            == encode_utf8(error_msg@).take(MAX_FAILURE_MESSAGE as int),
        r.created_at@ == time::rfc3339_text(now),
{
    let kept = if text::byte_len(error_msg) > MAX_FAILURE_MESSAGE {
        let (head, _) = error_msg.split_at(MAX_FAILURE_MESSAGE);
        head.to_owned()
    } else {
        error_msg.to_owned()
    };
    FailureRecord {
        job_name: job_name.to_owned(),
        error_message: kept,
        created_at: time::to_rfc3339(now),
    }
}

/// A lock that was taken at `taken` keeps every other run out until its time
/// is up, and no longer.
pub proof fn law_lock_excludes_until_expiry(
    doc: Json,
    taken: Timestamp,
    now: Timestamp,
    ttl_minutes: int,
)
    requires
        now.of_clock(),
        taken.of_clock(),
        time::in_calendar_range(now.secs - ttl_minutes * 60),
        stored_instant(doc, fields::LOCKED_AT@) == Some(taken),
        json::text_at(doc, fields::STATUS@) == Some("running"@),
    ensures
        lock_held(doc, now, ttl_minutes) <==> time::nanos_between(now, taken) < ttl_minutes * 60
            * 1_000_000_000,
{
    assert(time::nanos_between(now, taken) == (now.secs - taken.secs) * 1_000_000_000 + (now.nanos
        - taken.nanos));
}

/// A lock that was released keeps nobody out, whenever it was taken.
pub proof fn law_released_lock_is_free(doc: Json, now: Timestamp, ttl_minutes: int)
    requires
        json::text_at(doc, fields::STATUS@) == Some("completed"@),
    ensures
        !lock_held(doc, now, ttl_minutes),
{
    reveal_strlit("completed");
    reveal_strlit("running");
    assert("completed"@.len() == 9);
    assert("running"@.len() == 7);
}

/// A lock is held exactly where its document says that the job runs and when
/// it was taken, and that is less than the lock's time ago. Without a document
/// nothing is held.
pub proof fn law_lock_held_means(doc: Json, now: Timestamp, ttl_minutes: int)
    ensures
        lock_held(doc, now, ttl_minutes) <==> {
            &&& json::text_at(doc, "status"@) == Some("running"@)
            &&& stored_instant(doc, "lockedAt"@) matches Some(t) && t.is_after(
                now.earlier_by(ttl_minutes * 60),
            )
        },
        doc is Null ==> !lock_held(doc, now, ttl_minutes),
{
}

/// A job that took its lock keeps every other run of it out from then until the
/// lock's time is up.
pub proof fn law_taken_lock_is_held(
    r: LockRecord,
    job_name: Seq<char>,
    stamp: Seq<char>,
    doc: Json,
    taken: Timestamp,
    now: Timestamp,
    ttl_minutes: int,
)
    requires
        takes_lock(r, job_name, stamp),
        json::text_at(doc, "lockedAt"@) == Some(r.locked_at@),
        json::text_at(doc, "status"@) == Some(r.status@),
        time::rfc3339_instant(stamp) == Some(taken),
        now.of_clock(),
        taken.of_clock(),
        time::in_calendar_range(now.secs - ttl_minutes * 60),
    ensures
        lock_held(doc, now, ttl_minutes) <==> time::nanos_between(now, taken) < ttl_minutes * 60
            * 1_000_000_000,
        r.locked_by@ == "cron_"@ + job_name,
{
    law_lock_excludes_until_expiry(doc, taken, now, ttl_minutes);
}

} // verus!

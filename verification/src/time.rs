//! Instants, and the RFC 3339 texts that documents hold them in.
use vstd::prelude::*;

use crate::json;
use crate::json::{json_of, Json};

verus! {

/// Seconds in a day.
pub const DAY_SECS: i64 = 86_400;

/// Seconds in an hour.
pub const HOUR_SECS: i64 = 3_600;

/// An instant in UTC: whole seconds since the Unix epoch and the nanoseconds
/// past them. Within a leap second the nanoseconds run on past a billion.
#[derive(Debug, Clone, Copy, PartialEq, Eq)]
pub struct Timestamp {
    pub secs: i64,
    pub nanos: u32,
}

/// Seconds since the Unix epoch that the calendar, from year -262143 to year
/// 262142, holds.
pub open spec fn in_calendar_range(secs: int) -> bool {
    -8_334_601_228_800 <= secs <= 8_210_266_876_799
}

/// Whether the calendar holds so many seconds since the Unix epoch.
pub fn fits_calendar(secs: i64) -> (r: bool)
    ensures
        r == in_calendar_range(secs as int),
{
    -8_334_601_228_800 <= secs && secs <= 8_210_266_876_799
}

impl Timestamp {
    /// An instant of the calendar.
    pub open spec fn in_calendar(&self) -> bool {
        in_calendar_range(self.secs as int) && self.nanos < 2_000_000_000
    }

    /// An instant as a clock gives it: of the calendar, and in no leap second.
    pub open spec fn of_clock(&self) -> bool {
        self.in_calendar() && self.nanos < 1_000_000_000
    }

    /// This instant lies after `other`.
    pub open spec fn is_after(&self, other: Timestamp) -> bool {
        self.secs > other.secs || (self.secs == other.secs && self.nanos > other.nanos)
    }

    /// The instant `n` seconds earlier.
    pub open spec fn earlier_by(&self, n: int) -> Timestamp {
        Timestamp { secs: (self.secs - n) as i64, nanos: self.nanos }
    }

    /// Whether this instant lies after `other`.
    pub fn after(&self, other: Timestamp) -> (r: bool)
        ensures
            r == self.is_after(other),
    {
        self.secs > other.secs || (self.secs == other.secs && self.nanos > other.nanos)
    }

    /// The instant `n` seconds earlier.
    pub fn minus_seconds(&self, n: i64) -> (r: Timestamp)
        requires
            self.in_calendar(),
            -1_000_000_000 <= n <= 1_000_000_000,
        ensures
            r == self.earlier_by(n as int),
    {
        Timestamp { secs: self.secs - n, nanos: self.nanos }
    }
}

/// The leap seconds that a difference of two instants counts: one where the
/// time of day moves past the leap second that either of them lies in.
pub open spec fn leap_seconds(a: Timestamp, b: Timestamp) -> int {
    if a.secs % 86_400 > b.secs % 86_400 && b.nanos >= 1_000_000_000 {
        1
    } else if a.secs % 86_400 < b.secs % 86_400 && a.nanos >= 1_000_000_000 {
        -1
    } else {
        0
    }
}

/// The nanoseconds from `b` to `a`.
pub open spec fn nanos_between(a: Timestamp, b: Timestamp) -> int {
    (a.secs - b.secs + leap_seconds(a, b)) * 1_000_000_000 + (a.nanos - b.nanos)
}

/// The quotient of two numbers with its fraction dropped.
pub open spec fn quotient(n: int, d: int) -> int {
    if n >= 0 {
        n / d
    } else {
        -((-n) / d)
    }
}

/// The whole seconds from `b` to `a`.
pub open spec fn seconds_between(a: Timestamp, b: Timestamp) -> int {
    quotient(nanos_between(a, b), 1_000_000_000)
}

/// The whole minutes from `b` to `a`.
pub open spec fn minutes_between(a: Timestamp, b: Timestamp) -> int {
    quotient(seconds_between(a, b), 60)
}

/// The second of the day, counted from midnight.
fn second_of_day(t: Timestamp) -> (r: i64)
    requires
        t.in_calendar(),
    ensures
        r == t.secs as int % 86_400,
{
    if t.secs >= 0 {
        t.secs % 86_400
    } else {
        let back: i64 = (-t.secs) % 86_400;
        if back == 0 {
            0
        } else {
            86_400 - back
        }
    }
}

/// The nanoseconds from `b` to `a`.
pub fn elapsed_nanos(a: Timestamp, b: Timestamp) -> (r: i128)
    requires
        a.in_calendar(),
        b.in_calendar(),
    ensures
        r == nanos_between(a, b),
{
    let x: i64 = second_of_day(a);
    let y: i64 = second_of_day(b);
    let leap: i128 = if x > y && b.nanos >= 1_000_000_000 {
        1
    } else if x < y && a.nanos >= 1_000_000_000 {
        -1
    } else {
        0
    };
    (a.secs as i128 - b.secs as i128 + leap) * 1_000_000_000 + (a.nanos as i128 - b.nanos as i128)
}

/// The whole seconds from `b` to `a`.
pub fn elapsed_seconds(a: Timestamp, b: Timestamp) -> (r: i64)
    requires
        a.in_calendar(),
        b.in_calendar(),
    ensures
        r == seconds_between(a, b),
{
    let n: i128 = elapsed_nanos(a, b);
    (n / 1_000_000_000) as i64
}

/// The whole minutes from `b` to `a`.
pub fn elapsed_minutes(a: Timestamp, b: Timestamp) -> (r: i64)
    requires
        a.in_calendar(),
        b.in_calendar(),
    ensures
        r == minutes_between(a, b),
{
    elapsed_seconds(a, b) / 60
}

/// The instant that an RFC 3339 text names, and the offset from UTC, in
/// seconds, that it names it at.
pub uninterp spec fn rfc3339_parsed(s: Seq<char>) -> Option<(Timestamp, i32)>;

/// The text that `chrono::DateTime::to_rfc3339` writes for an instant at an
/// offset from UTC in seconds.
pub uninterp spec fn rfc3339_written(t: Timestamp, offset: i32) -> Seq<char>;

/// The instant that an RFC 3339 text names.
pub open spec fn rfc3339_instant(s: Seq<char>) -> Option<Timestamp> {
    match rfc3339_parsed(s) {
        Some((t, _)) => Some(t),
        None => None,
    }
}

/// The text that an instant is written as in UTC.
pub open spec fn rfc3339_text(t: Timestamp) -> Seq<char> {
    rfc3339_written(t, 0)
}

/// The text of an RFC 3339 text's instant and offset, written anew.
pub open spec fn rfc3339_rewritten(s: Seq<char>) -> Option<Seq<char>> {
    match rfc3339_parsed(s) {
        Some((t, offset)) => Some(rfc3339_written(t, offset)),
        None => None,
    }
}

/// An instant that a date and a time of day name: of the calendar, and in a
/// leap second only at the end of a minute.
pub open spec fn is_nameable(t: Timestamp) -> bool {
    t.in_calendar() && (t.nanos >= 1_000_000_000 ==> t.secs % 60 == 59)
}

/// The year of the instant at the offset, which is one of whole minutes, has
/// at most four digits and no sign.
pub open spec fn in_common_years_at(t: Timestamp, offset: i32) -> bool {
    offset % 60 == 0 && -62_167_219_200 <= t.secs + offset <= 253_402_300_799
}

/// The year of the instant in UTC has at most four digits and no sign.
pub open spec fn in_common_years(t: Timestamp) -> bool {
    in_common_years_at(t, 0)
}

/// `chrono::DateTime::parse_from_rfc3339`: the instant and the offset that the
/// text names, a function of the text alone, and nothing where it is no
/// RFC 3339 date and time. What is so read has a year of four digits and an
/// offset of whole minutes within a day.
#[verifier::external_body]
fn parse_zoned(ts: &str) -> (r: Option<(Timestamp, i32)>)
    ensures
        r == rfc3339_parsed(ts@),
        r matches Some((t, offset)) ==> is_nameable(t) && -86_400 < offset < 86_400
            && in_common_years_at(t, offset),
{
    chrono::DateTime::parse_from_rfc3339(ts).ok().map(
        |t|
            (
                Timestamp { secs: t.timestamp(), nanos: t.timestamp_subsec_nanos() },
                t.offset().local_minus_utc(),
            ),
    )
}

/// `chrono::DateTime::to_rfc3339` on the instant at the offset: a text that
/// depends on these alone, and that reads back as them where the year has four
/// digits and the offset whole minutes.
#[verifier::external_body]
fn write_zoned(t: Timestamp, offset: i32) -> (r: String)
    requires
        is_nameable(t),
        -86_400 < offset < 86_400,
    ensures
        r@ == rfc3339_written(t, offset),
        in_common_years_at(t, offset) ==> rfc3339_parsed(r@) == Some((t, offset)),
{
    let zone = chrono::FixedOffset::east_opt(offset).expect("an offset within a day");
    let t = chrono::DateTime::from_timestamp(t.secs, t.nanos).expect("an instant of the calendar");
    t.with_timezone(&zone).to_rfc3339()
}

/// The instant that an RFC 3339 text names.
pub fn parse_instant(ts: &str) -> (r: Option<Timestamp>)
    ensures
        r == rfc3339_instant(ts@),
        r matches Some(t) ==> t.in_calendar(),
{
    match parse_zoned(ts) {
        Some((t, _)) => Some(t),
        None => None,
    }
}

/// The text that an instant is written as in UTC. It reads back as that
/// instant where the year has four digits.
pub fn to_rfc3339(t: Timestamp) -> (r: String)
    requires
        t.of_clock(),
    ensures
        r@ == rfc3339_text(t),
        in_common_years(t) ==> rfc3339_instant(r@) == Some(t),
{
    write_zoned(t, 0)
}

/// An RFC 3339 text written anew; nothing where it is none. It names the same
/// instant.
pub fn rewrite_rfc3339(ts: &str) -> (r: Option<String>)
    ensures
        match r {
            Some(s) => rfc3339_rewritten(ts@) == Some(s@) && rfc3339_instant(s@)
                == rfc3339_instant(ts@),
            None => rfc3339_rewritten(ts@) is None,
        },
{
    match parse_zoned(ts) {
        Some((t, offset)) => Some(write_zoned(t, offset)),
        None => None,
    }
}

/// The instant that the text at `key` names.
pub open spec fn stored_instant(doc: Json, key: Seq<char>) -> Option<Timestamp> {
    match json::text_at(doc, key) {
        Some(s) => rfc3339_instant(s),
        None => None,
    }
}

/// The instant that the text at `key` names.
pub fn read_instant(doc: &serde_json::Value, key: &str) -> (r: Option<Timestamp>)
    ensures
        r == stored_instant(json_of(*doc), key@),
        r matches Some(t) ==> t.in_calendar(),
{
    match json::text_field(doc, key) {
        Some(s) => parse_instant(s),
        None => None,
    }
}

/// `chrono::Utc::now`: the instant that the system clock shows, which lies in
/// no leap second.
#[verifier::external_body]
pub(crate) fn utc_now() -> (r: Timestamp)
    ensures
        r.of_clock(),
{
    let t = chrono::Utc::now();
    Timestamp { secs: t.timestamp(), nanos: t.timestamp_subsec_nanos() }
}

/// The instant that the system clock shows.
pub fn now() -> (r: Timestamp)
    ensures
        r.of_clock(),
{
    utc_now()
}

/// Of two instants of a clock the later one lies a positive time after the
/// other; an instant moved back by some seconds lies that long before.
pub proof fn law_clock_instants_are_ordered(a: Timestamp, b: Timestamp, n: int)
    requires
        a.of_clock(),
        b.of_clock(),
        in_calendar_range(a.secs - n),
    ensures
        a.is_after(b) <==> nanos_between(a, b) > 0,
        nanos_between(a, b) == (a.secs * 1_000_000_000 + a.nanos) - (b.secs * 1_000_000_000
            + b.nanos),
        nanos_between(a, a.earlier_by(n)) == n * 1_000_000_000,
        a.earlier_by(n).of_clock(),
{
}

/// The whole seconds and minutes between two instants fall short of the time
/// between them by less than a second and less than a minute.
pub proof fn law_whole_units(a: Timestamp, b: Timestamp)
    requires
        nanos_between(a, b) >= 0,
    ensures
        seconds_between(a, b) * 1_000_000_000 <= nanos_between(a, b) < (seconds_between(a, b) + 1)
            * 1_000_000_000,
        minutes_between(a, b) * 60 <= seconds_between(a, b) < (minutes_between(a, b) + 1) * 60,
{
}

} // verus!

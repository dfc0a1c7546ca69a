//! Premium subscriptions that have lapsed or are about to renew.
use vstd::prelude::*;

use crate::cron::normalize_record_id;
use crate::email::labels::wording;
use crate::fields;
use crate::json;
use crate::json::{json_of, Json};
use crate::text;
use crate::text::{decimal, joined, views};
use crate::time;
use crate::time::Timestamp;

verus! {

/// The user of a subscription: the key of its record.
pub open spec fn subscriber(sub: Json) -> Seq<char> {
    text::after_first(json::text_or_empty(sub, fields::ID@), ':')
}

/// The user of a subscription.
pub fn subscriber_of(sub: &serde_json::Value) -> (r: &str)
    ensures
        r@ == subscriber(json_of(*sub)),
{
    normalize_record_id(json::text_field_or_empty(sub, fields::ID))
}

/// What the end of a subscription changes, on the subscription and on its
/// user. The user also loses the dates and the number of the subscription.
pub struct SubscriptionEnd {
    pub user_id: String,
    pub status: String,
    pub is_premium: bool,
    pub updated_at: String,
}

/// `e` ends a subscription at `stamp`.
pub open spec fn ends(e: SubscriptionEnd, sub: Json, stamp: Seq<char>) -> bool {
    &&& e.user_id@ == subscriber(sub)
    &&& e.status@ == "expired"@
    &&& !e.is_premium
    &&& e.updated_at@ == stamp
}

/// What the end of a subscription changes, where it names its user.
pub fn subscription_end(sub: &serde_json::Value, now: Timestamp) -> (r: Option<SubscriptionEnd>)
    requires
        now.of_clock(),
    ensures
        match r {
            Some(e) => subscriber(json_of(*sub)).len() > 0 && ends(
                e,
                json_of(*sub),
                time::rfc3339_text(now),
            ),
            None => subscriber(json_of(*sub)).len() == 0,
        },
{
    let uid = subscriber_of(sub);
    if uid.is_empty() {
        return None;
    }
    Some(
        SubscriptionEnd {
            user_id: uid.to_owned(),
            status: "expired".to_owned(),
            is_premium: false,
            updated_at: time::to_rfc3339(now),
        },
    )
}

/// Days before a renewal at which the user is reminded, in order.
pub fn reminder_days() -> (r: Vec<u32>)
    ensures
        r@ == seq![7u32, 1u32],
{
    let mut v: Vec<u32> = Vec::new();
    v.push(7);
    v.push(1);
    assert(v@ =~= seq![7u32, 1u32]);
    v
}

/// The span of renewals to remind of: half a day on either side of the instant
/// `days_ahead` days from now.
pub fn reminder_window(now: Timestamp, days_ahead: u32) -> (r: (Timestamp, Timestamp))
    requires
        now.of_clock(),
        time::in_calendar_range(now.secs + days_ahead * time::DAY_SECS - 12 * time::HOUR_SECS),
        time::in_calendar_range(now.secs + days_ahead * time::DAY_SECS + 12 * time::HOUR_SECS),
    ensures
        r.0 == now.earlier_by(12 * time::HOUR_SECS - days_ahead * time::DAY_SECS),
        r.1 == now.earlier_by(-12 * time::HOUR_SECS - days_ahead * time::DAY_SECS),
{
    let middle: i64 = now.secs + days_ahead as i64 * time::DAY_SECS;
    (
        Timestamp { secs: middle - 12 * time::HOUR_SECS, nanos: now.nanos },
        Timestamp { secs: middle + 12 * time::HOUR_SECS, nanos: now.nanos },
    )
}

/// The flag that a reminder leaves on its subscription.
pub open spec fn reminder_flag(days_ahead: nat) -> Seq<char> {
    "renewalReminderSentDays"@ + decimal(days_ahead)
}

/// The flag that a reminder leaves on its subscription.
pub fn reminder_field(days_ahead: u32) -> (r: String)
    ensures
        r@ == reminder_flag(days_ahead as nat),
{
    text::join2("renewalReminderSentDays", text::decimal_text(days_ahead as u128).as_str())
}

/// A reminder is due: the subscription renews, and none was sent for this day.
pub open spec fn reminder_due(sub: Json, days_ahead: nat) -> bool {
    !json::flag_at_or(sub, fields::CANCEL_AT_PERIOD_END@, false) && !json::flag_at_or(
        sub,
        reminder_flag(days_ahead),
        false,
    )
}

/// Whether a reminder is due.
pub fn needs_reminder(sub: &serde_json::Value, days_ahead: u32) -> (r: bool)
    ensures
        r == reminder_due(json_of(*sub), days_ahead as nat),
{
    let flag = reminder_field(days_ahead);
    !json::flag_field_or(sub, fields::CANCEL_AT_PERIOD_END, false) && !json::flag_field_or(
        sub,
        flag.as_str(),
        false,
    )
}

/// The plural ending for a number of days.
pub open spec fn plural(days: nat) -> Seq<char> {
    if days > 1 {
        "s"@
    } else {
        Seq::empty()
    }
}

/// The subject of a reminder.
pub open spec fn renewal_subject(days_ahead: nat, lang: Seq<char>) -> Seq<char> {
    joined(
        seq![
            wording(
                lang,
                "Your Origna Premium Renews in "@,
                "Votre Origna Premium se renouvelle dans "@,
            ),
            decimal(days_ahead),
            wording(lang, " Day"@, " jour"@),
            plural(days_ahead),
        ],
    )
}

/// A reminder of a renewal.
pub struct RenewalReminder {
    pub email: String,
    pub subject: String,
    pub buyer_name: String,
    pub days_ahead: u32,
    pub lang: String,
}

/// The language that a user is reminded in.
pub open spec fn renewal_lang(user: Json) -> Seq<char> {
    json::text_at_or(user, fields::LANGUAGE@, "en"@)
}

/// The reminder of a renewal to its user, where they can be written to.
pub fn renewal_reminder(user: &serde_json::Value, days_ahead: u32) -> (r: Option<RenewalReminder>)
    ensures
        match r {
            Some(m) => {
                let u = json_of(*user);
                &&& json::text_or_empty(u, fields::EMAIL@).len() > 0
                &&& m.email@ == json::text_or_empty(u, fields::EMAIL@)
                &&& m.subject@ == renewal_subject(days_ahead as nat, renewal_lang(u))
                &&& m.buyer_name@ == json::text_at_or(u, fields::NAME@, "there"@)
                &&& m.days_ahead == days_ahead
                &&& m.lang@ == renewal_lang(u)
            },
            None => json::text_or_empty(json_of(*user), fields::EMAIL@).len() == 0,
        },
{
    let email = json::text_field_or_empty(user, fields::EMAIL);
    if email.is_empty() {
        return None;
    }
    let lang = json::text_field_or(user, fields::LANGUAGE, "en");
    let (head, unit) = if text::same(lang, "fr") {
        ("Votre Origna Premium se renouvelle dans ", " jour")
    } else {
        ("Your Origna Premium Renews in ", " Day")
    };
    let number = text::decimal_text(days_ahead as u128);
    let end = if days_ahead > 1 {
        "s"
    } else {
        ""
    };
    let parts = [head, number.as_str(), unit, end];
    let subject = text::join(&parts);
    proof {
        reveal_strlit("");
        assert(""@ =~= Seq::<char>::empty());
        assert(views(parts@) =~= seq![
            head@,
            decimal(days_ahead as nat),
            unit@,
            plural(days_ahead as nat),
        ]);
    }
    Some(
        RenewalReminder {
            email: email.to_owned(),
            subject,
            buyer_name: json::text_field_or(user, fields::NAME, "there").to_owned(),
            days_ahead,
            lang: lang.to_owned(),
        },
    )
}

/// One reminder is sent for each day: one that was sent is not due again.
pub proof fn law_reminded_once(sub: Json, days_ahead: nat)
    requires
        json::flag_at(sub, reminder_flag(days_ahead)) == Some(true),
    ensures
        !reminder_due(sub, days_ahead),
{
}

/// A reminder is due exactly where the subscription does not end with its
/// period and no reminder for that day was noted on it.
pub proof fn law_reminder_due_means(sub: Json, days_ahead: nat)
    ensures
        reminder_due(sub, days_ahead) <==> json::flag_at(sub, "cancelAtPeriodEnd"@) != Some(true)
            && json::flag_at(sub, "renewalReminderSentDays"@ + decimal(days_ahead)) != Some(true),
{
}

/// The user of a subscription is its identifier without the table before the
/// first colon.
pub proof fn law_subscriber_is_the_key(sub: Json, table: Seq<char>, key: Seq<char>)
    requires
        json::text_at(sub, "id"@) == Some(table + seq![':'] + key),
        !table.contains(':'),
    ensures
        subscriber(sub) == key,
{
    let id = table + seq![':'] + key;
    assert(id[table.len() as int] == ':');
    assert forall|j: int| 0 <= j < table.len() implies id[j] != ':' by {
        assert(table.contains(table[j]));
    }
    text::lemma_index_of_first(id, ':', table.len() as int);
    assert(id.subrange(table.len() as int + 1, id.len() as int) =~= key);
}

/// A subscription that ended no longer makes its user premium: neither the
/// status that it is left with nor the user's own flag does.
pub proof fn law_ended_subscription_is_not_premium(
    e: SubscriptionEnd,
    sub: Json,
    stamp: Seq<char>,
    after: Json,
)
    requires
        ends(e, sub, stamp),
        json::text_at(after, "status"@) == Some(e.status@),
    ensures
        !crate::chat::premium(after),
        !e.is_premium,
        e.status@ == "expired"@,
        e.user_id@ == subscriber(sub),
        e.updated_at@ == stamp,
{
    reveal_strlit("expired");
    reveal_strlit("active");
    assert("expired"@.len() == 7 && "active"@.len() == 6);
}

/// The subject of a reminder tells the days in the user's language: one day, or
/// several.
pub proof fn law_renewal_subject(days_ahead: nat)
    ensures
        renewal_subject(days_ahead, "en"@) == joined(
            seq![
                "Your Origna Premium Renews in "@,
                decimal(days_ahead),
                " Day"@,
                plural(days_ahead),
            ],
        ),
        renewal_subject(days_ahead, "fr"@) == joined(
            seq![
                "Votre Origna Premium se renouvelle dans "@,
                decimal(days_ahead),
                " jour"@,
                plural(days_ahead),
            ],
        ),
        days_ahead <= 1 ==> plural(days_ahead).len() == 0,
        days_ahead > 1 ==> plural(days_ahead) == "s"@,
{
    reveal_strlit("en");
    reveal_strlit("fr");
    assert("en"@[0] != "fr"@[0]);
}

} // verus!

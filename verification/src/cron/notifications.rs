//! Push notifications that are still to be delivered.
use vstd::prelude::*;

use crate::fields;
use crate::json;
use crate::json::{json_of, Json};
use crate::text;
use crate::time;
use crate::time::Timestamp;

verus! {

/// Attempts after which a notification is given up.
pub const MAX_ATTEMPTS: i64 = 3;

/// A notification to deliver.
pub struct Delivery {
    pub record_id: String,
    pub token: String,
    pub title: String,
    pub body: String,
    /// The attempts that were made before.
    pub attempts: i64,
    /// What goes along with the notification.
    pub data: Option<Vec<(String, String)>>,
}

/// A record can be delivered: it has an identifier and a device token.
pub open spec fn is_deliverable(record: Json) -> bool {
    json::text_at(record, fields::ID@) is Some && json::text_at(record, fields::TOKEN@) is Some
}

/// The list holds the text members of a JSON object, each once.
pub open spec fn text_members(v: Seq<(String, String)>, data: Json) -> bool {
    &&& forall|i: int|
        0 <= i < v.len() ==> json::text_at(data, (#[trigger] v[i]).0@) == Some(v[i].1@)
    &&& forall|i: int, j: int|
        0 <= i < j < v.len() ==> (#[trigger] v[i]).0@ != (#[trigger] v[j]).0@
    &&& forall|k: Seq<char>| #[trigger]
        json::text_at(data, k) is Some ==> exists|i: int|
            0 <= i < v.len() && (#[trigger] v[i]).0@ == k
}

/// The text members of a JSON object; nothing for any other document.
pub fn text_payload(data: &serde_json::Value) -> (r: Option<Vec<(String, String)>>)
    ensures
        match r {
            Some(v) => json_of(*data) is Object && text_members(v@, json_of(*data)),
            None => !(json_of(*data) is Object),
        },
{
    let all = json::members(data)?;
    let ghost m = json_of(*data)->Object_0;
    let mut out: Vec<(String, String)> = Vec::new();
    let mut i: usize = 0;
    while i < all.len()
        invariant
            i <= all@.len(),
            json_of(*data) == Json::Object(m),
            json::lists_members(all@, m),
            forall|p: int|
                0 <= p < out@.len() ==> json::text_at(json_of(*data), (#[trigger] out@[p]).0@)
                    == Some(out@[p].1@),
            forall|p: int|
                0 <= p < out@.len() ==> exists|q: int|
                    0 <= q < i && (#[trigger] all@[q]).0@ == (#[trigger] out@[p]).0@,
            forall|p: int, q: int|
                0 <= p < q < out@.len() ==> (#[trigger] out@[p]).0@ != (#[trigger] out@[q]).0@,
            forall|q: int|
                0 <= q < i && json::as_text(json_of(*(#[trigger] all@[q]).1)) is Some ==> exists|
                    p: int,
                |
                    0 <= p < out@.len() && (#[trigger] out@[p]).0@ == all@[q].0@,
        decreases all@.len() - i,
    {
        let ghost before = out@;
        let (k, v) = all[i];
        assert(all@[i as int].0@ == k@);
        if let Some(s) = json::as_str(v) {
            out.push((k.clone(), s.to_owned()));
            proof {
                assert forall|p: int| 0 <= p < out@.len() implies json::text_at(
                    json_of(*data),
                    (#[trigger] out@[p]).0@,
                ) == Some(out@[p].1@) by {
                    if p < before.len() {
                        assert(out@[p] == before[p]);
                    }
                }
                assert forall|p: int| 0 <= p < out@.len() implies exists|q: int|
                    0 <= q < i + 1 && (#[trigger] all@[q]).0@ == (#[trigger] out@[p]).0@ by {
                    if p < before.len() {
                        assert(out@[p] == before[p]);
                        let q = choose|q: int|
                            0 <= q < i && (#[trigger] all@[q]).0@ == before[p].0@;
                        assert(all@[q].0@ == out@[p].0@);
                    } else {
                        assert(all@[i as int].0@ == out@[p].0@);
                    }
                }
                assert forall|p: int, q: int| 0 <= p < q < out@.len() implies (
                #[trigger] out@[p]).0@ != (#[trigger] out@[q]).0@ by {
                    assert(out@[p] == before[p]);
                    if q < before.len() {
                        assert(out@[q] == before[q]);
                    } else {
                        let w = choose|w: int|
                            0 <= w < i && (#[trigger] all@[w]).0@ == before[p].0@;
                        assert(all@[w].0@ != all@[i as int].0@);
                    }
                }
            }
        }
        proof {
            assert forall|q: int|
                0 <= q < i + 1 && json::as_text(
                    json_of(*(#[trigger] all@[q]).1),
                ) is Some implies exists|p: int|
                0 <= p < out@.len() && (#[trigger] out@[p]).0@ == all@[q].0@ by {
                if q < i {
                    let p = choose|p: int|
                        0 <= p < before.len() && (#[trigger] before[p]).0@ == all@[q].0@;
                    assert(out@[p] == before[p]);
                } else {
                    assert(out@[before.len() as int].0@ == all@[q].0@);
                }
            }
        }
        i = i + 1;
    }
    proof {
        assert forall|k: Seq<char>| #[trigger] json::text_at(json_of(*data), k) is Some implies
            exists|p: int| 0 <= p < out@.len() && (#[trigger] out@[p]).0@ == k by {
            assert(m.dom().contains(k));
            let q = choose|q: int| 0 <= q < all@.len() && (#[trigger] all@[q]).0@ == k;
            assert(json::as_text(json_of(*all@[q].1)) is Some);
        }
    }
    Some(out)
}

/// What a record asks to deliver, where it can be delivered.
pub fn delivery_of(record: &serde_json::Value) -> (r: Option<Delivery>)
    ensures
        match r {
            Some(d) => {
                let j = json_of(*record);
                &&& is_deliverable(j)
                &&& d.record_id@ == text::after_last(json::text_or_empty(j, fields::ID@), ':')
                &&& d.token@ == json::text_or_empty(j, fields::TOKEN@)
                &&& d.title@ == json::text_or_empty(j, fields::NOTIFICATION_TITLE@)
                &&& d.body@ == json::text_or_empty(j, fields::NOTIFICATION_BODY@)
                &&& d.attempts == json::int_at_or(j, fields::ATTEMPTS@, 0)
                &&& match d.data {
                    Some(v) => json::member(j, fields::DATA@) matches Some(x) && x is Object
                        && text_members(v@, x),
                    None => !(json::member(j, fields::DATA@) matches Some(x) && x is Object),
                }
            },
            None => !is_deliverable(json_of(*record)),
        },
{
    let id = json::text_field(record, fields::ID)?;
    let token = json::text_field(record, fields::TOKEN)?;
    let data = match json::get(record, fields::DATA) {
        Some(x) => text_payload(x),
        None => None,
    };
    Some(
        Delivery {
            record_id: text::suffix_after_last(id, ':').to_owned(),
            token: token.to_owned(),
            title: json::text_field_or_empty(record, fields::NOTIFICATION_TITLE).to_owned(),
            body: json::text_field_or_empty(record, fields::NOTIFICATION_BODY).to_owned(),
            attempts: json::int_field_or(record, fields::ATTEMPTS, 0),
            data,
        },
    )
}

/// What an attempt at delivery changes on the record.
pub struct DeliveryUpdate {
    /// The new status, where it changes.
    pub status: Option<String>,
    /// The new number of attempts, where it changes.
    pub attempts: Option<i64>,
    /// The instant of delivery.
    pub delivered_at: Option<String>,
    pub updated_at: String,
}

/// `u` is what an attempt at delivery, after `attempts` others, changes on the
/// record at `stamp`.
pub open spec fn updates_delivery(
    u: DeliveryUpdate,
    attempts: int,
    sent: bool,
    stamp: Seq<char>,
) -> bool {
    &&& u.updated_at@ == stamp
    &&& match u.status {
        Some(s) => if sent {
            s@ == "delivered"@
        } else {
            attempts + 1 >= MAX_ATTEMPTS && s@ == "failed"@
        },
        None => !sent && attempts + 1 < MAX_ATTEMPTS,
    }
    &&& match u.attempts {
        Some(n) => !sent && n == attempts + 1,
        None => sent,
    }
    &&& match u.delivered_at {
        Some(s) => sent && s@ == stamp,
        None => !sent,
    }
}

/// What an attempt at delivery, after `attempts` others, changes on the
/// record: it is delivered, or given up after the third attempt, or stays
/// pending.
pub fn delivery_update(attempts: i64, sent: bool, now: Timestamp) -> (r: DeliveryUpdate)
    requires
        now.of_clock(),
        !sent ==> attempts < i64::MAX,
    ensures
        updates_delivery(r, attempts as int, sent, time::rfc3339_text(now)),
{
    let stamp = time::to_rfc3339(now);
    if sent {
        return DeliveryUpdate {
            status: Some("delivered".to_owned()),
            attempts: None,
            delivered_at: Some(stamp.clone()),
            updated_at: stamp,
        };
    }
    let made: i64 = attempts + 1;
    let status = if made >= MAX_ATTEMPTS {
        Some("failed".to_owned())
    } else {
        None
    };
    DeliveryUpdate { status, attempts: Some(made), delivered_at: None, updated_at: stamp }
}

/// A notification that was sent is delivered, whatever went before. One that
/// was not is tried three times in all: it stays pending after the first and
/// the second attempt, and is given up after the third.
pub proof fn law_tried_three_times(
    u: DeliveryUpdate,
    attempts: int,
    sent: bool,
    stamp: Seq<char>,
)
    requires
        updates_delivery(u, attempts, sent, stamp),
    ensures
        sent ==> (u.status matches Some(s) && s@ == "delivered"@) && (u.delivered_at matches Some(d)
            && d@ == stamp) && u.attempts is None,
        !sent ==> (u.attempts matches Some(n) && n == attempts + 1) && u.delivered_at is None,
        !sent && attempts < 2 ==> u.status is None,
        !sent && attempts >= 2 ==> (u.status matches Some(s) && s@ == "failed"@),
        u.updated_at@ == stamp,
{
}

/// A record is delivered exactly where it has an identifier and a device
/// token.
pub proof fn law_deliverable_means(record: Json)
    ensures
        is_deliverable(record) <==> json::text_at(record, "id"@) is Some && json::text_at(
            record,
            "token"@,
        ) is Some,
{
}

} // verus!

//! Orders whose payment authorization has lapsed.
use vstd::prelude::*;

use crate::cron::normalize_record_id;
use crate::fields;
use crate::json;
use crate::json::{json_of, jsons, Json};
use crate::rules;
use crate::text;
use crate::time;
use crate::time::Timestamp;

verus! {

/// The instant before which an authorization has lapsed.
pub fn authorization_cutoff(now: Timestamp) -> (r: Timestamp)
    requires
        now.of_clock(),
    ensures
        r == now.earlier_by(rules::AUTHORIZATION_EXPIRY_DAYS * time::DAY_SECS),
{
    now.minus_seconds(rules::AUTHORIZATION_EXPIRY_DAYS * time::DAY_SECS)
}

/// What expiring an order changes on it.
pub struct OrderExpiry {
    pub order_status: String,
    pub payment_status: String,
    pub cancellation_reason: String,
    pub stock_restored: bool,
    pub updated_at: String,
}

/// `r` expires an order at `stamp`.
pub open spec fn expires(r: OrderExpiry, stamp: Seq<char>) -> bool {
    &&& r.order_status@ == "expired"@
    &&& r.payment_status@ == "cancelled"@
    &&& r.cancellation_reason@ == "authorization_expired"@
    &&& r.stock_restored
    &&& r.updated_at@ == stamp
}

/// The change that expires an order.
pub fn order_expiry(now: Timestamp) -> (r: OrderExpiry)
    requires
        now.of_clock(),
    ensures
        expires(r, time::rfc3339_text(now)),
{
    OrderExpiry {
        order_status: "expired".to_owned(),
        payment_status: "cancelled".to_owned(),
        cancellation_reason: "authorization_expired".to_owned(),
        stock_restored: true,
        updated_at: time::to_rfc3339(now),
    }
}

/// The payment to cancel with an order, where it has one.
pub fn payment_to_cancel(order: &serde_json::Value) -> (r: Option<&str>)
    ensures
        ({
            let id = json::text_or_empty(json_of(*order), fields::PAYMENT_INTENT_ID@);
            match r {
                Some(s) => id.len() > 0 && s@ == id,
                None => id.len() == 0,
            }
        }),
{
    let id = json::text_field_or_empty(order, fields::PAYMENT_INTENT_ID);
    if id.is_empty() {
        None
    } else {
        Some(id)
    }
}

/// Units that go back on stock.
pub struct StockReturn {
    pub product_id: String,
    pub quantity: i64,
}

/// Products and quantities of a list of returns.
pub open spec fn returns_view(v: Seq<StockReturn>) -> Seq<(Seq<char>, i64)> {
    Seq::new(v.len(), |i: int| (v[i].product_id@, v[i].quantity))
}

/// An item that took units from stock: one that is not digital, names its
/// product and has a quantity.
pub open spec fn took_stock(item: Json) -> bool {
    &&& !json::flag_at_or(item, fields::IS_DIGITAL@, false)
    &&& json::text_or_empty(item, fields::PRODUCT_ID@).len() > 0
    &&& json::int_at_or(item, fields::QUANTITY@, 1) > 0
}

/// The units that some items took from stock.
pub open spec fn stock_taken(items: Seq<Json>) -> Seq<(Seq<char>, i64)>
    decreases items.len(),
{
    if items.len() == 0 {
        Seq::empty()
    } else {
        let before = stock_taken(items.drop_last());
        if took_stock(items.last()) {
            before.push(
                (
                    json::text_or_empty(items.last(), fields::PRODUCT_ID@),
                    json::int_at_or(items.last(), fields::QUANTITY@, 1),
                ),
            )
        } else {
            before
        }
    }
}

/// The units that go back on stock with an order: those that it took, unless
/// they went back before.
pub open spec fn stock_owed(order: Json) -> Seq<(Seq<char>, i64)> {
    if json::flag_at_or(order, fields::STOCK_RESTORED@, false) {
        Seq::empty()
    } else {
        stock_taken(json::items_at(order, fields::ITEMS@))
    }
}

/// The units that go back on stock with an order.
pub fn stock_returns(order: &serde_json::Value) -> (r: Vec<StockReturn>)
    ensures
        returns_view(r@) == stock_owed(json_of(*order)),
{
    let mut out: Vec<StockReturn> = Vec::new();
    assert(returns_view(out@) =~= Seq::<(Seq<char>, i64)>::empty());
    if json::flag_field_or(order, fields::STOCK_RESTORED, false) {
        return out;
    }
    let items = match json::list_field(order, fields::ITEMS) {
        Some(v) => v,
        None => return out,
    };
    let ghost all = jsons(items@);
    let mut i: usize = 0;
    assert(all.take(0) =~= Seq::<Json>::empty());
    while i < items.len()
        invariant
            i <= items@.len(),
            all == jsons(items@),
            returns_view(out@) == stock_taken(all.take(i as int)),
        decreases items@.len() - i,
    {
        let item = &items[i];
        proof {
            assert(all.take(i + 1).drop_last() =~= all.take(i as int));
            assert(all.take(i + 1).last() == json_of(*item));
        }
        if !json::flag_field_or(item, fields::IS_DIGITAL, false) {
            let pid = json::text_field_or_empty(item, fields::PRODUCT_ID);
            let qty: i64 = json::int_field_or(item, fields::QUANTITY, 1);
            if !pid.is_empty() && qty > 0 {
                let ghost before = returns_view(out@);
                out.push(StockReturn { product_id: pid.to_owned(), quantity: qty });
                assert(returns_view(out@) =~= before.push((pid@, qty)));
            }
        }
        i = i + 1;
    }
    assert(all.take(i as int) =~= all);
    out
}

/// The event that records an expired order.
pub struct ExpiryEvent {
    pub order_id: String,
    pub user_id: String,
    pub event_type: String,
    pub message: String,
    pub created_at: String,
}

/// The event that records an expired order.
pub fn expiry_event(order: &serde_json::Value, now: Timestamp) -> (r: ExpiryEvent)
    requires
        now.of_clock(),
    ensures
        r.order_id@ == json::text_or_empty(json_of(*order), fields::ID@),
        r.user_id@ == json::text_or_empty(json_of(*order), fields::USER_ID@),
        r.event_type@ == "authorization_expired"@,
        r.message@
            == "Payment authorization expired after 7 days. Order cancelled and stock restored."@,
        r.created_at@ == time::rfc3339_text(now),
{
    ExpiryEvent {
        order_id: json::text_field_or_empty(order, fields::ID).to_owned(),
        user_id: json::text_field_or_empty(order, fields::USER_ID).to_owned(),
        event_type: "authorization_expired".to_owned(),
        message:
            "Payment authorization expired after 7 days. Order cancelled and stock restored.".to_owned(),
        created_at: time::to_rfc3339(now),
    }
}

/// The key of an order's record.
pub fn order_key(order: &serde_json::Value) -> (r: &str)
    ensures
        r@ == text::after_first(json::text_or_empty(json_of(*order), fields::ID@), ':'),
{
    normalize_record_id(json::text_field_or_empty(order, fields::ID))
}

/// Units go back on stock only in positive numbers, and for a named product.
pub proof fn law_stock_only_grows(items: Seq<Json>, i: int)
    requires
        0 <= i < stock_taken(items).len(),
    ensures
        stock_taken(items)[i].0.len() > 0,
        stock_taken(items)[i].1 > 0,
    decreases items.len(),
{
    let before = stock_taken(items.drop_last());
    if i < before.len() {
        law_stock_only_grows(items.drop_last(), i);
    }
}

/// An order that was expired once gives nothing back a second time.
pub proof fn law_stock_restored_once(order: Json)
    requires
        json::flag_at(order, fields::STOCK_RESTORED@) == Some(true),
    ensures
        stock_owed(order).len() == 0,
{
}

/// An item gives its units back exactly where it is not digital, names its
/// product and has a positive quantity, one where it does not say; it gives
/// back just that quantity.
pub proof fn law_items_give_back_their_units(items: Seq<Json>, item: Json)
    ensures
        ({
            let product = json::text_or_empty(item, "productId"@);
            let quantity = json::int_at_or(item, "quantity"@, 1);
            stock_taken(items.push(item)) == if json::flag_at(item, "isDigital"@) != Some(true)
                && product.len() > 0 && quantity > 0 {
                stock_taken(items).push((product, quantity))
            } else {
                stock_taken(items)
            }
        }),
        stock_taken(Seq::empty()).len() == 0,
{
    assert(items.push(item).drop_last() =~= items);
    assert(items.push(item).last() == item);
}

/// An order whose stock was not restored yet gives back what its items took.
pub proof fn law_stock_owed_unless_restored(order: Json)
    requires
        json::flag_at(order, "stockRestored"@) != Some(true),
    ensures
        stock_owed(order) == stock_taken(json::items_at(order, "items"@)),
{
}

/// An order that was expired owes no stock any more, its payment is cancelled,
/// and it is no longer one of those that a payout looks for.
pub proof fn law_expired_order_owes_nothing(r: OrderExpiry, stamp: Seq<char>, after: Json)
    requires
        expires(r, stamp),
        json::flag_at(after, "stockRestored"@) == Some(r.stock_restored),
        json::text_at(after, "orderStatus"@) == Some(r.order_status@),
    ensures
        stock_owed(after).len() == 0,
        r.order_status@ == "expired"@,
        r.payment_status@ == "cancelled"@,
        r.cancellation_reason@ == "authorization_expired"@,
        json::text_at(after, "orderStatus"@) != Some("delivered"@),
        r.updated_at@ == stamp,
{
    reveal_strlit("expired");
    reveal_strlit("delivered");
    assert("expired"@.len() == 7 && "delivered"@.len() == 9);
}

} // verus!

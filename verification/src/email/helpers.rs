//! What emails are made from: order documents, and the contacts of buyers and
//! sellers.
use vstd::prelude::*;

use crate::email::labels::wording;
use crate::email::{OrderItem, OrderSummary};
use crate::fields;
use crate::json;
use crate::json::{json_of, jsons, Json};
use crate::lists;
use crate::lists::texts;
use crate::text;
use crate::text::{after_last, joined, views};

verus! {

// ------------------------------------------------------------------- documents

/// The text at member `field`, empty where there is none.
pub fn str_field<'a>(value: &'a serde_json::Value, field: &str) -> (r: &'a str)
    ensures
        r@ == json::text_or_empty(json_of(*value), field@),
{
    json::text_field_or_empty(value, field)
}

/// A record identifier without the table that it may be prefixed with.
pub fn record_key(record_id: &str) -> (r: &str)
    ensures
        r@ == after_last(record_id@, ':'),
{
    text::suffix_after_last(record_id, ':')
}

/// A key is the key of itself: taking the key twice changes nothing.
pub proof fn law_record_key_idempotent(id: Seq<char>)
    ensures
        after_last(after_last(id, ':'), ':') == after_last(id, ':'),
{
    id.index_of_last_ensures(':');
    let key = after_last(id, ':');
    key.index_of_last_ensures(':');
    if key.contains(':') {
        let j = choose|j: int| 0 <= j < key.len() && key[j] == ':';
        let k = id.index_of_last(':')->0;
        assert(id.contains(':'));
        assert(id[k + 1 + j] == ':');
    }
}

/// `lang` is French, in small or capital letters.
pub open spec fn is_french(lang: Seq<char>) -> bool {
    lang.len() == 2 && (lang[0] == 'f' || lang[0] == 'F') && (lang[1] == 'r' || lang[1] == 'R')
}

/// The language that `lang` stands for: French, or else English.
pub open spec fn normalized_lang(lang: Seq<char>) -> Seq<char> {
    if is_french(lang) {
        "fr"@
    } else {
        "en"@
    }
}

/// The language that a text stands for: French, or else English.
pub fn normalize_lang(lang: &str) -> (r: &'static str)
    ensures
        r@ == normalized_lang(lang@),
{
    let v = text::chars_of(lang);
    if v.len() == 2 && (v[0] == 'f' || v[0] == 'F') && (v[1] == 'r' || v[1] == 'R') {
        "fr"
    } else {
        "en"
    }
}

/// Normalizing a language twice changes nothing.
pub proof fn law_normalize_lang_idempotent(lang: Seq<char>)
    ensures
        normalized_lang(normalized_lang(lang)) == normalized_lang(lang),
{
    reveal_strlit("fr");
    reveal_strlit("en");
}

/// The items of an order.
pub fn order_items(order: &serde_json::Value) -> (r: Vec<serde_json::Value>)
    ensures
        jsons(r@) == json::items_at(json_of(*order), fields::ITEMS@),
{
    json::list_copy(order, fields::ITEMS)
}

/// How often an item was bought: the number given, held within `u32`, and one
/// where none is given.
pub open spec fn quantity_of(item: Json) -> u32 {
    match json::nat_at(item, fields::QUANTITY@) {
        Some(n) => if n > u32::MAX {
            u32::MAX
        } else {
            n as u32
        },
        None => match json::int_at(item, fields::QUANTITY@) {
            Some(n) => 0,
            None => 1,
        },
    }
}

/// How often an item was bought.
pub fn item_quantity(item: &serde_json::Value) -> (r: u32)
    ensures
        r == quantity_of(json_of(*item)),
{
    match json::nat_field(item, fields::QUANTITY) {
        Some(n) => if n > u32::MAX as u64 {
            u32::MAX
        } else {
            n as u32
        },
        None => match json::int_field(item, fields::QUANTITY) {
            Some(_) => 0,
            None => 1,
        },
    }
}

/// The price of an item: in cents, or else the older price field.
pub open spec fn price_of(item: Json) -> i64 {
    match json::int_at(item, fields::PRICE_CENTS@) {
        Some(n) => n,
        None => json::int_at_or(item, fields::PRICE@, 0),
    }
}

/// The price of an item.
pub fn item_price_cents(item: &serde_json::Value) -> (r: i64)
    ensures
        r == price_of(json_of(*item)),
{
    match json::int_field(item, fields::PRICE_CENTS) {
        Some(n) => n,
        None => json::int_field_or(item, fields::PRICE, 0),
    }
}

/// The member `a`, or else the member `b`.
pub open spec fn member_or(doc: Json, a: Seq<char>, b: Seq<char>) -> Option<Json> {
    match json::member(doc, a) {
        Some(x) => Some(x),
        None => json::member(doc, b),
    }
}

/// The text of a member that is there and not blank.
pub open spec fn filled_text(x: Option<Json>) -> Option<Seq<char>> {
    match x {
        Some(j) => match json::as_text(j) {
            Some(s) => if text::is_blank(s) {
                None
            } else {
                Some(s)
            },
            None => None,
        },
        None => None,
    }
}

/// The text of a member that is there and not blank.
pub fn filled<'a>(x: Option<&'a serde_json::Value>) -> (r: Option<&'a str>)
    ensures
        match r {
            Some(s) => x is Some && filled_text(Some(json_of(*x->0))) == Some(s@),
            None => x is None || filled_text(Some(json_of(*x->0))) is None,
        },
{
    if let Some(v) = x {
        if let Some(s) = json::as_str(v) {
            if !text::blank(s) {
                return Some(s);
            }
        }
    }
    None
}

/// The name of an item.
pub open spec fn name_of(item: Json) -> Seq<char> {
    match filled_text(member_or(item, fields::NAME@, fields::TITLE@)) {
        Some(s) => s,
        None => "Item"@,
    }
}

/// The name of an item.
pub fn item_name(item: &serde_json::Value) -> (r: String)
    ensures
        r@ == name_of(json_of(*item)),
{
    let named = match json::get(item, fields::NAME) {
        Some(x) => Some(x),
        None => json::get(item, fields::TITLE),
    };
    match filled(named) {
        Some(s) => s.to_owned(),
        None => "Item".to_owned(),
    }
}

// ------------------------------------------------------------------- summaries

/// What an item costs as often as it was bought.
pub open spec fn amount_of(item: Json) -> int {
    price_of(item) * quantity_of(item)
}

/// What some items cost together.
pub open spec fn items_total(items: Seq<Json>) -> int
    decreases items.len(),
{
    if items.len() == 0 {
        0
    } else {
        items_total(items.drop_last()) + amount_of(items.last())
    }
}

/// Every amount on the way to the total fits in `i64`.
pub open spec fn total_fits(items: Seq<Json>) -> bool
    decreases items.len(),
{
    items.len() == 0 || {
        &&& total_fits(items.drop_last())
        &&& i64::MIN <= amount_of(items.last()) <= i64::MAX
        &&& i64::MIN <= items_total(items) <= i64::MAX
    }
}

/// The order number of a document: its key, or else the order's own number.
pub open spec fn order_number(order: Json) -> Seq<char> {
    match json::text_at(order, fields::ID@) {
        Some(id) => after_last(id, ':'),
        None => after_last(json::text_or_empty(order, fields::ORDER_ID@), ':'),
    }
}

/// `shown` is `item` as emails show it.
pub open spec fn shows_item(shown: OrderItem, item: Json) -> bool {
    &&& shown.name@ == name_of(item)
    &&& shown.quantity == quantity_of(item)
    &&& shown.price_cents == price_of(item)
}

/// `shown` are `items` as emails show them.
pub open spec fn shows_items(shown: Seq<OrderItem>, items: Seq<Json>) -> bool {
    shown.len() == items.len() && forall|i: int|
        0 <= i < items.len() ==> shows_item(#[trigger] shown[i], items[i])
}

/// `s` sums up `items` of `order`.
pub open spec fn summarizes(s: OrderSummary, order: Json, items: Seq<Json>) -> bool {
    let sum = items_total(items) as i64;
    &&& s.order_id@ == order_number(order)
    &&& shows_items(s.items@, items)
    &&& s.subtotal_cents == json::int_at_or(order, fields::SUBTOTAL_CENTS@, sum)
    &&& s.shipping_cost_cents == json::int_at_or(order, fields::SHIPPING_COST_CENTS@, 0)
    &&& s.tax_amount_cents == json::int_at_or(order, fields::TAX_AMOUNT_CENTS@, 0)
    &&& s.total_amount_cents == json::int_at_or(order, fields::TOTAL_AMOUNT_CENTS@, sum)
}

proof fn lemma_total_fits_prefix(items: Seq<Json>, k: int)
    requires
        total_fits(items),
        0 <= k <= items.len(),
    ensures
        total_fits(items.take(k)),
    decreases items.len() - k,
{
    if k == items.len() {
        assert(items.take(k) =~= items);
    } else {
        lemma_total_fits_prefix(items, k + 1);
        assert(items.take(k + 1).drop_last() =~= items.take(k));
    }
}

/// What some items cost together; nothing where an amount does not fit in
/// `i64`.
pub fn sum_items(items: &[serde_json::Value]) -> (r: Option<i64>)
    ensures
        match r {
            Some(n) => total_fits(jsons(items@)) && n == items_total(jsons(items@)),
            None => !total_fits(jsons(items@)),
        },
{
    let ghost all = jsons(items@);
    let mut sum: i64 = 0;
    let mut i: usize = 0;
    while i < items.len()
        invariant
            i <= items@.len(),
            all == jsons(items@),
            total_fits(all.take(i as int)),
            sum == items_total(all.take(i as int)),
        decreases items@.len() - i,
    {
        let price: i64 = item_price_cents(&items[i]);
        let quantity: u32 = item_quantity(&items[i]);
        proof {
            assert(all.take(i + 1).drop_last() =~= all.take(i as int));
            assert(all.take(i + 1).last() == json_of(items@[i as int]));
            if total_fits(all) {
                lemma_total_fits_prefix(all, i + 1);
            }
        }
        let amount: i64 = match price.checked_mul(quantity as i64) {
            Some(n) => n,
            None => return None,
        };
        sum = match sum.checked_add(amount) {
            Some(n) => n,
            None => return None,
        };
        i = i + 1;
    }
    assert(all.take(i as int) =~= all);
    Some(sum)
}

/// The items as emails show them.
fn shown_items(items: &[serde_json::Value]) -> (r: Vec<OrderItem>)
    ensures
        shows_items(r@, jsons(items@)),
{
    let mut out: Vec<OrderItem> = Vec::new();
    let mut i: usize = 0;
    while i < items.len()
        invariant
            i <= items@.len(),
            out@.len() == i,
            forall|j: int| 0 <= j < i ==> shows_item(#[trigger] out@[j], jsons(items@)[j]),
        decreases items@.len() - i,
    {
        let item = &items[i];
        out.push(
            OrderItem {
                name: item_name(item),
                quantity: item_quantity(item),
                price_cents: item_price_cents(item),
            },
        );
        i = i + 1;
    }
    out
}

/// The order number of a document.
pub fn order_number_of(order: &serde_json::Value) -> (r: String)
    ensures
        r@ == order_number(json_of(*order)),
{
    match json::text_field(order, fields::ID) {
        Some(id) => record_key(id).to_owned(),
        None => record_key(str_field(order, fields::ORDER_ID)).to_owned(),
    }
}

/// Sums up `items` of an order.
pub fn build_order_summary_from_items(order: &serde_json::Value, items: &[serde_json::Value]) -> (r:
    OrderSummary)
    requires
        total_fits(jsons(items@)),
    ensures
        summarizes(r, json_of(*order), jsons(items@)),
{
    let sum: i64 = match sum_items(items) {
        Some(n) => n,
        None => 0,
    };
    OrderSummary {
        order_id: order_number_of(order),
        items: shown_items(items),
        subtotal_cents: json::int_field_or(order, fields::SUBTOTAL_CENTS, sum),
        shipping_cost_cents: json::int_field_or(order, fields::SHIPPING_COST_CENTS, 0),
        tax_amount_cents: json::int_field_or(order, fields::TAX_AMOUNT_CENTS, 0),
        total_amount_cents: json::int_field_or(order, fields::TOTAL_AMOUNT_CENTS, sum),
    }
}

/// Sums up an order.
pub fn build_order_summary(order: &serde_json::Value) -> (r: OrderSummary)
    requires
        total_fits(json::items_at(json_of(*order), fields::ITEMS@)),
    ensures
        summarizes(r, json_of(*order), json::items_at(json_of(*order), fields::ITEMS@)),
{
    let items = order_items(order);
    build_order_summary_from_items(order, items.as_slice())
}

/// Sums up an order; nothing where an amount does not fit in `i64`.
pub fn checked_order_summary(order: &serde_json::Value) -> (r: Option<OrderSummary>)
    ensures
        match r {
            Some(s) => {
                let items = json::items_at(json_of(*order), fields::ITEMS@);
                total_fits(items) && summarizes(s, json_of(*order), items)
            },
            None => !total_fits(json::items_at(json_of(*order), fields::ITEMS@)),
        },
{
    let items = order_items(order);
    match sum_items(items.as_slice()) {
        Some(_) => Some(build_order_summary_from_items(order, items.as_slice())),
        None => None,
    }
}

/// The items of a seller.
pub open spec fn items_of(items: Seq<Json>, seller_id: Seq<char>) -> Seq<Json>
    decreases items.len(),
{
    if items.len() == 0 {
        Seq::empty()
    } else {
        let before = items_of(items.drop_last(), seller_id);
        if json::text_or_empty(items.last(), fields::SELLER_ID@) == seller_id {
            before.push(items.last())
        } else {
            before
        }
    }
}

/// The items of a seller.
fn seller_items(order: &serde_json::Value, seller_id: &str) -> (r: Vec<serde_json::Value>)
    ensures
        jsons(r@) == items_of(json::items_at(json_of(*order), fields::ITEMS@), seller_id@),
{
    let items = order_items(order);
    let ghost all = jsons(items@);
    let mut out: Vec<serde_json::Value> = Vec::new();
    let mut i: usize = 0;
    assert(jsons(out@) =~= items_of(all.take(0), seller_id@));
    while i < items.len()
        invariant
            i <= items@.len(),
            all == jsons(items@),
            jsons(out@) == items_of(all.take(i as int), seller_id@),
        decreases items@.len() - i,
    {
        proof {
            assert(all.take(i + 1).drop_last() =~= all.take(i as int));
            assert(all.take(i + 1).last() == json_of(items@[i as int]));
        }
        let ghost before = jsons(out@);
        if text::same(str_field(&items[i], fields::SELLER_ID), seller_id) {
            out.push(json::copy(&items[i]));
            assert(jsons(out@) =~= before.push(all[i as int]));
        }
        i = i + 1;
    }
    assert(all.take(i as int) =~= all);
    out
}

/// `s` sums up the part of a seller in an order: their items, and nothing for
/// shipping and taxes.
pub open spec fn summarizes_part(s: OrderSummary, order: Json, items: Seq<Json>) -> bool {
    &&& s.order_id@ == order_number(order)
    &&& shows_items(s.items@, items)
    &&& s.subtotal_cents == items_total(items)
    &&& s.shipping_cost_cents == 0
    &&& s.tax_amount_cents == 0
    &&& s.total_amount_cents == items_total(items)
}

/// Sums up the part of a seller in an order, where they have one.
pub fn build_seller_order_summary(order: &serde_json::Value, seller_id: &str) -> (r: Option<
    OrderSummary,
>)
    requires
        total_fits(items_of(json::items_at(json_of(*order), fields::ITEMS@), seller_id@)),
    ensures
        ({
            let items = items_of(json::items_at(json_of(*order), fields::ITEMS@), seller_id@);
            match r {
                Some(s) => items.len() > 0 && summarizes_part(s, json_of(*order), items),
                None => items.len() == 0,
            }
        }),
{
    let items = seller_items(order, seller_id);
    assert(jsons(items@).len() == items@.len());
    if items.len() == 0 {
        return None;
    }
    let subtotal: i64 = match sum_items(items.as_slice()) {
        Some(n) => n,
        None => 0,
    };
    let mut summary = build_order_summary_from_items(order, items.as_slice());
    summary.subtotal_cents = subtotal;
    summary.shipping_cost_cents = 0;
    summary.tax_amount_cents = 0;
    summary.total_amount_cents = subtotal;
    Some(summary)
}

/// Sums up the part of a seller in an order. There is no outcome where an
/// amount does not fit in `i64`.
pub fn checked_seller_order_summary(order: &serde_json::Value, seller_id: &str) -> (r: Option<
    Option<OrderSummary>,
>)
    ensures
        ({
            let items = items_of(json::items_at(json_of(*order), fields::ITEMS@), seller_id@);
            match r {
                Some(Some(s)) => total_fits(items) && items.len() > 0 && summarizes_part(
                    s,
                    json_of(*order),
                    items,
                ),
                Some(None) => items.len() == 0,
                None => !total_fits(items),
            }
        }),
{
    let items = seller_items(order, seller_id);
    match sum_items(items.as_slice()) {
        Some(_) => Some(build_seller_order_summary(order, seller_id)),
        None => None,
    }
}

// -------------------------------------------------------------------- contacts

/// The buyer of an order.
pub open spec fn buyer_id_of(order: Json) -> Seq<char> {
    match json::text_at(order, fields::BUYER_ID@) {
        Some(s) => if s.len() > 0 {
            s
        } else {
            json::text_or_empty(order, fields::USER_ID@)
        },
        None => json::text_or_empty(order, fields::USER_ID@),
    }
}

/// The buyer of an order.
pub fn order_buyer_id(order: &serde_json::Value) -> (r: &str)
    ensures
        r@ == buyer_id_of(json_of(*order)),
{
    if let Some(s) = json::text_field(order, fields::BUYER_ID) {
        if !s.is_empty() {
            return s;
        }
    }
    json::text_field_or_empty(order, fields::USER_ID)
}

/// The tree of a document that may be missing.
pub open spec fn tree(doc: Option<&serde_json::Value>) -> Option<Json> {
    match doc {
        Some(v) => Some(json_of(*v)),
        None => None,
    }
}

/// The filled text at `key` of a document that may be missing.
pub open spec fn filled_at(doc: Option<Json>, key: Seq<char>) -> Option<Seq<char>> {
    match doc {
        Some(j) => filled_text(json::member(j, key)),
        None => None,
    }
}

/// The filled text at `key` of a document that may be missing.
pub fn filled_field<'a>(doc: Option<&'a serde_json::Value>, key: &str) -> (r: Option<&'a str>)
    ensures
        match r {
            Some(s) => filled_at(tree(doc), key@) == Some(s@),
            None => filled_at(tree(doc), key@) is None,
        },
{
    match doc {
        Some(v) => filled(json::get(v, key)),
        None => None,
    }
}

/// The first of two that is there.
pub open spec fn either(a: Option<Seq<char>>, b: Option<Seq<char>>) -> Option<Seq<char>> {
    match a {
        Some(s) => Some(s),
        None => b,
    }
}

/// A text that is there, or `default`.
pub open spec fn or_default(a: Option<Seq<char>>, default: Seq<char>) -> Seq<char> {
    match a {
        Some(s) => s,
        None => default,
    }
}

/// Where a buyer is written to: the order's address, or else the buyer's own.
pub open spec fn buyer_email(order: Json, buyer: Option<Json>) -> Option<Seq<char>> {
    either(
        filled_at(Some(order), fields::CUSTOMER_EMAIL@),
        filled_at(buyer, fields::EMAIL@),
    )
}

/// What a buyer is called.
pub open spec fn buyer_name(buyer: Option<Json>) -> Seq<char> {
    or_default(filled_at(buyer, fields::NAME@), "Customer"@)
}

/// The language that the buyer's own document asks for.
pub open spec fn own_lang(buyer: Option<Json>) -> Option<Seq<char>> {
    match buyer {
        Some(doc) => match member_or(doc, fields::LANGUAGE@, fields::PREFERRED_LANGUAGE@) {
            Some(x) => json::as_text(x),
            None => None,
        },
        None => None,
    }
}

/// The language that a buyer is written to in: the order's, or else their own.
pub open spec fn buyer_lang(order: Json, buyer: Option<Json>) -> Seq<char> {
    match either(filled_at(Some(order), fields::PREFERRED_LANGUAGE@), own_lang(buyer)) {
        Some(l) => normalized_lang(l),
        None => "en"@,
    }
}

/// The email address, the name and the language of the buyer of an order,
/// where an address is known. `buyer_doc` is the buyer's document, if found.
pub fn resolve_buyer_contact(
    order: &serde_json::Value,
    buyer_doc: Option<&serde_json::Value>,
) -> (r: Option<(String, String, String)>)
    ensures
        match r {
            Some((email, name, lang)) => {
                &&& buyer_email(json_of(*order), tree(buyer_doc)) == Some(email@)
                &&& name@ == buyer_name(tree(buyer_doc))
                &&& lang@ == buyer_lang(json_of(*order), tree(buyer_doc))
            },
            None => buyer_email(json_of(*order), tree(buyer_doc)) is None,
        },
{
    let email = match filled_field(Some(order), fields::CUSTOMER_EMAIL) {
        Some(s) => s,
        None => filled_field(buyer_doc, fields::EMAIL)?,
    };
    let name = match filled_field(buyer_doc, fields::NAME) {
        Some(s) => s,
        None => "Customer",
    };
    let asked = match filled_field(Some(order), fields::PREFERRED_LANGUAGE) {
        Some(s) => Some(s),
        None => match buyer_doc {
            Some(doc) => match json::get(doc, fields::LANGUAGE) {
                Some(x) => json::as_str(x),
                None => json::text_field(doc, fields::PREFERRED_LANGUAGE),
            },
            None => None,
        },
    };
    let lang = match asked {
        Some(l) => normalize_lang(l),
        None => "en",
    };
    Some((email.to_owned(), name.to_owned(), lang.to_owned()))
}

/// The member that a seller's profile names them by: the first that is there.
pub open spec fn profile_name(profile: Json) -> Option<Json> {
    match member_or(profile, fields::NAME@, fields::BUSINESS_NAME@) {
        Some(x) => Some(x),
        None => member_or(profile, fields::STORE_NAME@, fields::DISPLAY_NAME@),
    }
}

/// Where a seller is written to: the profile's address, or else the user's.
pub open spec fn seller_email(profile: Option<Json>, user: Option<Json>) -> Option<Seq<char>> {
    either(filled_at(profile, fields::EMAIL@), filled_at(user, fields::EMAIL@))
}

/// What a seller is called: by the profile, or else by the user, or else by
/// the identifier.
pub open spec fn seller_name(
    seller_id: Seq<char>,
    profile: Option<Json>,
    user: Option<Json>,
) -> Seq<char> {
    let by_profile = match profile {
        Some(p) => filled_text(profile_name(p)),
        None => None,
    };
    or_default(either(by_profile, filled_at(user, fields::NAME@)), seller_id)
}

/// The language that a seller is written to in.
pub open spec fn seller_lang(user: Option<Json>) -> Seq<char> {
    match user {
        Some(doc) => json::text_at_or(doc, fields::PREFERRED_LANGUAGE@, "en"@),
        None => "en"@,
    }
}

/// The email address, the name and the language of a seller, where the seller
/// and an address are known. `profile` and `user_doc` are the seller's
/// documents, if found.
pub fn resolve_seller_contact(
    seller_id: &str,
    profile: Option<&serde_json::Value>,
    user_doc: Option<&serde_json::Value>,
) -> (r: Option<(String, String, String)>)
    ensures
        match r {
            Some((email, name, lang)) => {
                &&& seller_id@.len() > 0
                &&& seller_email(tree(profile), tree(user_doc)) == Some(email@)
                &&& name@ == seller_name(seller_id@, tree(profile), tree(user_doc))
                &&& lang@ == seller_lang(tree(user_doc))
            },
            None => seller_id@.len() == 0 || seller_email(tree(profile), tree(user_doc)) is None,
        },
{
    if seller_id.is_empty() {
        return None;
    }
    let email = match filled_field(profile, fields::EMAIL) {
        Some(s) => s,
        None => filled_field(user_doc, fields::EMAIL)?,
    };
    let by_profile = match profile {
        Some(p) => {
            let named = match json::get(p, fields::NAME) {
                Some(x) => Some(x),
                None => match json::get(p, fields::BUSINESS_NAME) {
                    Some(x) => Some(x),
                    None => match json::get(p, fields::STORE_NAME) {
                        Some(x) => Some(x),
                        None => json::get(p, fields::DISPLAY_NAME),
                    },
                },
            };
            filled(named)
        },
        None => None,
    };
    let name = match by_profile {
        Some(s) => s,
        None => match filled_field(user_doc, fields::NAME) {
            Some(s) => s,
            None => seller_id,
        },
    };
    let lang = match user_doc {
        Some(doc) => json::text_field_or(doc, fields::PREFERRED_LANGUAGE, "en"),
        None => "en",
    };
    Some((email.to_owned(), name.to_owned(), lang.to_owned()))
}

/// The sellers of an order, each once, in order of appearance; items without
/// a seller count for nobody.
pub open spec fn named_sellers(items: Seq<Json>) -> Seq<Seq<char>>
    decreases items.len(),
{
    if items.len() == 0 {
        Seq::empty()
    } else {
        let before = named_sellers(items.drop_last());
        let s = json::text_or_empty(items.last(), fields::SELLER_ID@);
        if s.len() == 0 {
            before
        } else {
            lists::with_distinct(before, s)
        }
    }
}

/// The sellers of an order, each once.
pub fn order_sellers(order: &serde_json::Value) -> (r: Vec<String>)
    ensures
        texts(r@) == named_sellers(json::items_at(json_of(*order), fields::ITEMS@)),
{
    let mut out: Vec<String> = Vec::new();
    let items = match json::list_field(order, fields::ITEMS) {
        Some(v) => v,
        None => {
            assert(texts(out@) =~= Seq::<Seq<char>>::empty());
            return out;
        },
    };
    let ghost all = jsons(items@);
    let mut i: usize = 0;
    assert(texts(out@) =~= named_sellers(all.take(0)));
    while i < items.len()
        invariant
            i <= items@.len(),
            all == jsons(items@),
            texts(out@) == named_sellers(all.take(i as int)),
        decreases items@.len() - i,
    {
        proof {
            assert(all.take(i + 1).drop_last() =~= all.take(i as int));
            assert(all.take(i + 1).last() == json_of(items@[i as int]));
        }
        let seller = str_field(&items[i], fields::SELLER_ID);
        if !seller.is_empty() {
            lists::add_distinct(&mut out, seller);
        }
        i = i + 1;
    }
    assert(all.take(i as int) =~= all);
    out
}

// -------------------------------------------------------------------- subjects

/// The number by which an order is spoken of: its key, empty where it has no
/// identifier.
pub open spec fn spoken_number(order: Json) -> Seq<char> {
    match json::text_at(order, fields::ID@) {
        Some(id) => after_last(id, ':'),
        None => Seq::empty(),
    }
}

/// The number by which an order is spoken of.
pub fn spoken_order_number(order: &serde_json::Value) -> (r: String)
    ensures
        r@ == spoken_number(json_of(*order)),
{
    match json::text_field(order, fields::ID) {
        Some(id) => record_key(id).to_owned(),
        None => String::new(),
    }
}

/// The subject of an order confirmation.
pub fn confirmation_subject(lang: &str) -> (r: String)
    ensures
        r@ == wording(
            lang@,
            "Your order is confirmed — Origna"@,
            "Votre commande est confirmée — Origna"@,
        ),
{
    if text::same(lang, "fr") {
        "Votre commande est confirmée — Origna".to_owned()
    } else {
        "Your order is confirmed — Origna".to_owned()
    }
}

/// The subject of a seller notification.
pub fn seller_subject(order_id: &str, lang: &str) -> (r: String)
    ensures
        r@ == wording(
            lang@,
            "[Origna] New order received #"@,
            "[Origna] Nouvelle commande reçue #"@,
        ) + order_id@,
{
    if text::same(lang, "fr") {
        text::join2("[Origna] Nouvelle commande reçue #", order_id)
    } else {
        text::join2("[Origna] New order received #", order_id)
    }
}

/// The subject of a shipping notification.
pub fn shipping_subject(order_id: &str, lang: &str) -> (r: String)
    ensures
        r@ == joined(
            seq![
                wording(lang@, "Order #"@, "Commande #"@),
                order_id@,
                wording(lang@, " shipped — Origna"@, " expédiée — Origna"@),
            ],
        ),
{
    let (head, tail) = if text::same(lang, "fr") {
        ("Commande #", " expédiée — Origna")
    } else {
        ("Order #", " shipped — Origna")
    };
    let parts = [head, order_id, tail];
    let r = text::join(&parts);
    assert(views(parts@) =~= seq![head@, order_id@, tail@]);
    r
}

/// The language of a shipping notification: the one asked for, or else the
/// buyer's.
pub fn shipping_lang<'a>(asked: Option<&str>, resolved: &'a str) -> (r: &'a str)
    ensures
        r@ == match asked {
            Some(l) => if text::is_blank(l@) {
                resolved@
            } else {
                normalized_lang(l@)
            },
            None => resolved@,
        },
{
    if let Some(l) = asked {
        if !text::blank(l) {
            return normalize_lang(l);
        }
    }
    resolved
}

// ------------------------------------------------------------------------ laws

/// What the lines of a summary come to.
pub open spec fn lines_total(shown: Seq<OrderItem>) -> int
    decreases shown.len(),
{
    if shown.len() == 0 {
        0
    } else {
        lines_total(shown.drop_last()) + shown.last().price_cents * shown.last().quantity
    }
}

/// The lines of a summary come to what the items cost together: the subtotal
/// of an order that states none is the sum of the lines that are shown.
pub proof fn law_lines_match_total(shown: Seq<OrderItem>, items: Seq<Json>)
    requires
        shows_items(shown, items),
    ensures
        lines_total(shown) == items_total(items),
    decreases items.len(),
{
    if items.len() > 0 {
        let a = shown.drop_last();
        let b = items.drop_last();
        assert(shows_items(a, b)) by {
            assert forall|i: int| 0 <= i < b.len() implies shows_item(#[trigger] a[i], b[i]) by {
                assert(shows_item(shown[i], items[i]));
            }
        }
        law_lines_match_total(a, b);
        assert(shows_item(shown[items.len() - 1], items[items.len() - 1]));
    }
}

/// What the parts of `sellers` in an order come to together.
pub open spec fn parts_total(items: Seq<Json>, sellers: Seq<Seq<char>>) -> int
    decreases sellers.len(),
{
    if sellers.len() == 0 {
        0
    } else {
        parts_total(items, sellers.drop_last()) + items_total(items_of(items, sellers.last()))
    }
}

/// The seller of an item.
pub open spec fn seller_of_item(item: Json) -> Seq<char> {
    json::text_or_empty(item, fields::SELLER_ID@)
}

/// One more item adds its amount to the part of its seller, and to no other.
proof fn lemma_part_step(items: Seq<Json>, seller: Seq<char>)
    requires
        items.len() > 0,
    ensures
        items_total(items_of(items, seller)) == items_total(items_of(items.drop_last(), seller))
            + if seller_of_item(items.last()) == seller {
            amount_of(items.last())
        } else {
            0
        },
{
    let before = items_of(items.drop_last(), seller);
    if seller_of_item(items.last()) == seller {
        assert(items_of(items, seller).drop_last() =~= before);
    }
}

proof fn lemma_parts_step(items: Seq<Json>, sellers: Seq<Seq<char>>)
    requires
        items.len() > 0,
        sellers.no_duplicates(),
    ensures
        parts_total(items, sellers) == parts_total(items.drop_last(), sellers)
            + if sellers.contains(seller_of_item(items.last())) {
            amount_of(items.last())
        } else {
            0
        },
    decreases sellers.len(),
{
    if sellers.len() > 0 {
        let rest = sellers.drop_last();
        let s0 = seller_of_item(items.last());
        lemma_parts_step(items, rest);
        lemma_part_step(items, sellers.last());
        if rest.contains(s0) {
            let j = choose|j: int| 0 <= j < rest.len() && rest[j] == s0;
            assert(sellers[j] == s0);
            assert(sellers[sellers.len() - 1] != s0);
        } else if sellers.contains(s0) {
            let j = choose|j: int| 0 <= j < sellers.len() && sellers[j] == s0;
            if j < rest.len() {
                assert(rest[j] == s0);
            }
        } else {
            assert(sellers[sellers.len() - 1] == sellers.last());
        }
    }
}

proof fn lemma_part_of_absent(items: Seq<Json>, seller: Seq<char>)
    requires
        seller.len() > 0,
        !named_sellers(items).contains(seller),
    ensures
        items_of(items, seller).len() == 0,
    decreases items.len(),
{
    if items.len() > 0 {
        let before = named_sellers(items.drop_last());
        let s0 = seller_of_item(items.last());
        if s0.len() > 0 && !before.contains(s0) {
            assert(named_sellers(items)[before.len() as int] == s0);
            if before.contains(seller) {
                let j = choose|j: int| 0 <= j < before.len() && before[j] == seller;
                assert(named_sellers(items)[j] == seller);
            }
        }
        lemma_part_of_absent(items.drop_last(), seller);
    }
}

proof fn lemma_named_sellers_distinct(items: Seq<Json>)
    ensures
        named_sellers(items).no_duplicates(),
    decreases items.len(),
{
    if items.len() > 0 {
        lemma_named_sellers_distinct(items.drop_last());
    }
}

/// Where every item names its seller, the summaries that the sellers of an
/// order get come to the whole order: no item is left out or told twice.
pub proof fn law_seller_parts_add_up(items: Seq<Json>)
    requires
        forall|i: int| 0 <= i < items.len() ==> seller_of_item(#[trigger] items[i]).len() > 0,
    ensures
        parts_total(items, named_sellers(items)) == items_total(items),
    decreases items.len(),
{
    if items.len() > 0 {
        let init = items.drop_last();
        let before = named_sellers(init);
        let now = named_sellers(items);
        let s0 = seller_of_item(items.last());
        assert(s0 == seller_of_item(items[items.len() - 1]));
        assert forall|i: int| 0 <= i < init.len() implies seller_of_item(#[trigger] init[i]).len()
            > 0 by {
            assert(items[i] == init[i]);
        }
        law_seller_parts_add_up(init);
        lemma_named_sellers_distinct(items);
        lemma_parts_step(items, now);
        if before.contains(s0) {
            assert(now == before);
        } else {
            assert(now.drop_last() =~= before);
            assert(now.last() == s0);
            assert(now[now.len() - 1] == s0);
            lemma_part_of_absent(init, s0);
        }
    }
}

/// An item was bought as often as its quantity says, once where it does not
/// say, and never less than not at all nor more than `u32` holds; its price is
/// that in cents, or else the one in the older field.
pub proof fn law_items_as_stated(item: Json)
    ensures
        json::int_at(item, "quantity"@) matches Some(n) ==> (0 <= n <= u32::MAX ==> quantity_of(
            item,
        ) == n),
        json::int_at(item, "quantity"@) matches Some(n) && n < 0 ==> quantity_of(item) == 0,
        json::int_at(item, "quantity"@) matches Some(n) && n > u32::MAX ==> quantity_of(item)
            == u32::MAX,
        json::member(item, "quantity"@) is None ==> quantity_of(item) == 1,
        json::int_at(item, "priceCents"@) matches Some(n) ==> price_of(item) == n,
        json::int_at(item, "priceCents"@) is None ==> price_of(item) == json::int_at_or(
            item,
            "price"@,
            0,
        ),
        json::text_at(item, "name"@) matches Some(s) ==> (!text::is_blank(s) ==> name_of(item)
            == s),
        json::text_at(item, "name"@) matches Some(s) && text::is_blank(s) ==> name_of(item)
            == "Item"@,
        json::member(item, "name"@) is None ==> name_of(item) == "Item"@,
{
}

/// Each item adds its price, as often as it was bought, to what an order comes
/// to; an item belongs to the part of the seller that it names.
pub proof fn law_items_add_up(items: Seq<Json>, item: Json, seller: Seq<char>)
    ensures
        items_total(items.push(item)) == items_total(items) + price_of(item) * quantity_of(item),
        items_total(Seq::empty()) == 0,
        items_of(items.push(item), seller) == if json::text_or_empty(item, "sellerId"@) == seller {
            items_of(items, seller).push(item)
        } else {
            items_of(items, seller)
        },
        items_of(Seq::empty(), seller).len() == 0,
{
    assert(items.push(item).drop_last() =~= items);
}

/// A summary states what the order states; where it states no subtotal or no
/// total, that is what the items come to, and shipping and taxes that it does
/// not state are nothing.
pub proof fn law_summary_as_stated(s: OrderSummary, order: Json, items: Seq<Json>)
    requires
        summarizes(s, order, items),
        i64::MIN <= items_total(items) <= i64::MAX,
    ensures
        json::int_at(order, "subtotalCents"@) matches Some(n) ==> s.subtotal_cents == n,
        json::int_at(order, "subtotalCents"@) is None ==> s.subtotal_cents == items_total(items),
        json::int_at(order, "totalAmountCents"@) matches Some(n) ==> s.total_amount_cents == n,
        json::int_at(order, "totalAmountCents"@) is None ==> s.total_amount_cents == items_total(
            items,
        ),
        s.shipping_cost_cents == json::int_at_or(order, "shippingCostCents"@, 0),
        s.tax_amount_cents == json::int_at_or(order, "taxAmountCents"@, 0),
        s.items@.len() == items.len(),
        forall|i: int|
            0 <= i < items.len() ==> (#[trigger] s.items@[i]).quantity == quantity_of(items[i])
                && s.items@[i].price_cents == price_of(items[i]) && s.items@[i].name@ == name_of(
                items[i],
            ),
{
    assert forall|i: int| 0 <= i < items.len() implies shows_item(
        #[trigger] s.items@[i],
        items[i],
    ) by {}
}

/// A seller's summary holds their items alone, comes to what these cost, and
/// has no shipping and no taxes.
pub proof fn law_seller_summary_is_their_part(s: OrderSummary, order: Json, items: Seq<Json>)
    requires
        summarizes_part(s, order, items),
    ensures
        s.subtotal_cents == items_total(items),
        s.total_amount_cents == items_total(items),
        s.shipping_cost_cents == 0,
        s.tax_amount_cents == 0,
        s.items@.len() == items.len(),
        lines_total(s.items@) == s.total_amount_cents,
{
    law_lines_match_total(s.items@, items);
}

/// The sellers of an order are those whom its items name, each once.
pub proof fn law_sellers_of_an_order(items: Seq<Json>, item: Json)
    ensures
        ({
            let s = json::text_or_empty(item, "sellerId"@);
            let before = named_sellers(items);
            named_sellers(items.push(item)) == if s.len() > 0 && !before.contains(s) {
                before.push(s)
            } else {
                before
            }
        }),
        named_sellers(Seq::empty()).len() == 0,
{
    assert(items.push(item).drop_last() =~= items);
}

/// A buyer is written to at the address that the order gives, or else at their
/// own; in the language that the order asks for, or else their own; by their
/// name, or else as a customer. Blank texts do not count.
pub proof fn law_buyer_contact(order: Json, buyer: Json)
    ensures
        ({
            let asked = json::text_at(order, "customerEmail"@);
            let own = json::text_at(buyer, "email"@);
            let given = asked matches Some(s) && !text::is_blank(s);
            &&& given ==> buyer_email(order, Some(buyer)) == asked && buyer_email(order, None)
                == asked
            &&& !given && (own matches Some(s) && !text::is_blank(s)) ==> buyer_email(
                order,
                Some(buyer),
            ) == own
            &&& !given && !(own matches Some(s) && !text::is_blank(s)) ==> buyer_email(
                order,
                Some(buyer),
            ) is None
            &&& !given ==> buyer_email(order, None) is None
        }),
        json::text_at(buyer, "name"@) matches Some(s) ==> (!text::is_blank(s) ==> buyer_name(
            Some(buyer),
        ) == s),
        buyer_name(None) == "Customer"@,
        json::text_at(order, "preferredLanguage"@) matches Some(l) ==> (!text::is_blank(l)
            ==> buyer_lang(order, Some(buyer)) == normalized_lang(l)),
        json::member(order, "preferredLanguage"@) is None ==> {
            &&& buyer_lang(order, None) == "en"@
            &&& json::text_at(buyer, "language"@) matches Some(l) ==> buyer_lang(
                order,
                Some(buyer),
            ) == normalized_lang(l)
            &&& json::member(buyer, "language"@) is None && (json::text_at(
                buyer,
                "preferredLanguage"@,
            ) is Some) ==> buyer_lang(order, Some(buyer)) == normalized_lang(
                json::text_at(buyer, "preferredLanguage"@)->0,
            )
        },
{
}

/// A seller is written to at the address of their profile, or else at that of
/// their user; they are called by the first name that their profile has, or
/// else by their user's, or else by their identifier.
pub proof fn law_seller_contact(seller_id: Seq<char>, profile: Json, user: Json)
    ensures
        ({
            let there = json::text_at(profile, "email"@);
            let own = json::text_at(user, "email"@);
            let given = there matches Some(s) && !text::is_blank(s);
            &&& given ==> seller_email(Some(profile), Some(user)) == there
            &&& !given && (own matches Some(s) && !text::is_blank(s)) ==> seller_email(
                Some(profile),
                Some(user),
            ) == own
            &&& !given && !(own matches Some(s) && !text::is_blank(s)) ==> seller_email(
                Some(profile),
                Some(user),
            ) is None
        }),
        json::text_at(profile, "name"@) matches Some(s) ==> (!text::is_blank(s) ==> seller_name(
            seller_id,
            Some(profile),
            Some(user),
        ) == s),
        json::text_at(user, "name"@) matches Some(s) ==> (!text::is_blank(s) ==> seller_name(
            seller_id,
            None,
            Some(user),
        ) == s),
        seller_name(seller_id, None, None) == seller_id,
        seller_lang(None) == "en"@,
        json::text_at(user, "preferredLanguage"@) matches Some(l) ==> seller_lang(Some(user)) == l,
        json::text_at(user, "preferredLanguage"@) is None ==> seller_lang(Some(user)) == "en"@,
{
}

/// The buyer of an order is the one that it names as such, or else its user.
pub proof fn law_buyer_of_an_order(order: Json)
    ensures
        json::text_or_empty(order, "buyerId"@).len() > 0 ==> buyer_id_of(order)
            == json::text_or_empty(order, "buyerId"@),
        json::text_or_empty(order, "buyerId"@).len() == 0 ==> buyer_id_of(order)
            == json::text_or_empty(order, "userId"@),
{
}

/// Only `fr`, in small or capital letters, stands for French; anything else
/// stands for English.
pub proof fn law_languages(lang: Seq<char>)
    ensures
        lang == "fr"@ || lang == "FR"@ || lang == "Fr"@ || lang == "fR"@ <==> normalized_lang(lang)
            == "fr"@,
        normalized_lang(lang) == "fr"@ || normalized_lang(lang) == "en"@,
{
    reveal_strlit("fr");
    reveal_strlit("FR");
    reveal_strlit("Fr");
    reveal_strlit("fR");
    reveal_strlit("en");
    assert("en"@[0] != "fr"@[0]);
    if is_french(lang) {
        assert(lang =~= "fr"@ || lang =~= "FR"@ || lang =~= "Fr"@ || lang =~= "fR"@);
    }
}

/// A summary comes out wherever the amounts fit in `i64`: it is refused only for
/// an item whose cost, or with which the total, does not.
pub proof fn law_summary_comes_out(items: Seq<Json>, item: Json)
    ensures
        total_fits(Seq::empty()),
        total_fits(items.push(item)) <==> {
            let cost = price_of(item) * quantity_of(item);
            &&& total_fits(items)
            &&& -0x8000_0000_0000_0000 <= cost <= 0x7fff_ffff_ffff_ffff
            &&& -0x8000_0000_0000_0000 <= items_total(items) + cost <= 0x7fff_ffff_ffff_ffff
        },
{
    assert(items.push(item).drop_last() =~= items);
    assert(items.push(item).last() == item);
    law_items_add_up(items, item, Seq::empty());
}

} // verus!

//! Products that run low, and the digests of them that their sellers get.
use vstd::prelude::*;

use crate::email::labels::wording;
use crate::email::LowStockLine;
use crate::fields;
use crate::json;
use crate::json::{json_of, jsons, Json};
use crate::lists;
use crate::lists::{as_ints, texts};
use crate::rules;
use crate::text;
use crate::time;
use crate::time::{read_instant, stored_instant, Timestamp};

verus! {

/// The stock below which a seller is warned where the product names no
/// threshold.
pub const DEFAULT_LOW_STOCK_THRESHOLD: i64 = 5;

/// The stock at which the seller of a product is warned.
pub open spec fn threshold_of(product: Json) -> i64 {
    match json::member(product, "inventory"@) {
        Some(i) => json::int_at_or(i, fields::LOW_STOCK_THRESHOLD@, DEFAULT_LOW_STOCK_THRESHOLD),
        None => DEFAULT_LOW_STOCK_THRESHOLD,
    }
}

/// Whether the stock of a product is tracked.
pub open spec fn is_tracked(product: Json) -> bool {
    match json::member(product, "inventory"@) {
        Some(i) => json::flag_at_or(i, fields::TRACK_QUANTITY@, true),
        None => true,
    }
}

/// The units that are left of a product.
pub open spec fn stock_of(product: Json) -> i64 {
    json::int_at_or(product, fields::STOCK_QUANTITY@, 0)
}

/// The seller of a product, empty where it names none.
pub open spec fn stock_seller(product: Json) -> Seq<char> {
    json::text_or_empty(product, fields::SELLER_ID@)
}

/// The product has a seller, its stock is tracked, and no more is left of it
/// than its threshold. A threshold of nothing switches the alert off.
pub open spec fn is_low(product: Json) -> bool {
    &&& threshold_of(product) != 0
    &&& is_tracked(product)
    &&& stock_of(product) <= threshold_of(product)
    &&& stock_seller(product).len() > 0
}

/// The seller was told of the product less than the cooldown ago.
pub open spec fn recently_alerted(product: Json, now: Timestamp) -> bool {
    stored_instant(product, fields::LAST_LOW_STOCK_ALERT_AT@) matches Some(t)
        && time::nanos_between(now, t) < rules::LOW_STOCK_ALERT_COOLDOWN_HOURS * time::HOUR_SECS
        * 1_000_000_000
}

/// The seller was told of one of their products less than the cooldown ago.
pub open spec fn on_cooldown(products: Seq<Json>, seller: Seq<char>, now: Timestamp) -> bool {
    exists|i: int|
        0 <= i < products.len() && stock_seller(#[trigger] products[i]) == seller
            && recently_alerted(products[i], now)
}

/// Whether a product runs low.
pub fn runs_low(product: &serde_json::Value) -> (r: bool)
    ensures
        r == is_low(json_of(*product)),
{
    let (threshold, counted) = match json::get(product, "inventory") {
        Some(i) => (
            json::int_field_or(i, fields::LOW_STOCK_THRESHOLD, DEFAULT_LOW_STOCK_THRESHOLD),
            json::flag_field_or(i, fields::TRACK_QUANTITY, true),
        ),
        None => (DEFAULT_LOW_STOCK_THRESHOLD, true),
    };
    threshold != 0 && counted && json::int_field_or(product, fields::STOCK_QUANTITY, 0)
        <= threshold && !json::text_field_or_empty(product, fields::SELLER_ID).is_empty()
}

/// Whether the seller was told of a product less than the cooldown ago.
pub fn was_alerted(product: &serde_json::Value, now: Timestamp) -> (r: bool)
    requires
        now.of_clock(),
    ensures
        r == recently_alerted(json_of(*product), now),
{
    match read_instant(product, fields::LAST_LOW_STOCK_ALERT_AT) {
        Some(t) => {
            let cooldown: i128 = rules::LOW_STOCK_ALERT_COOLDOWN_HOURS as i128
                * time::HOUR_SECS as i128 * 1_000_000_000;
            time::elapsed_nanos(now, t) < cooldown
        },
        None => false,
    }
}

/// Whether the seller was told of one of their products less than the cooldown
/// ago.
pub fn seller_on_cooldown(
    products: &Vec<serde_json::Value>,
    seller: &str,
    now: Timestamp,
) -> (r: bool)
    requires
        now.of_clock(),
    ensures
        r == on_cooldown(jsons(products@), seller@, now),
{
    let ghost all = jsons(products@);
    let mut i: usize = 0;
    while i < products.len()
        invariant
            i <= products@.len(),
            now.of_clock(),
            all == jsons(products@),
            forall|j: int|
                0 <= j < i ==> !(stock_seller(#[trigger] all[j]) == seller@ && recently_alerted(
                    all[j],
                    now,
                )),
        decreases products@.len() - i,
    {
        assert(all[i as int] == json_of(products@[i as int]));
        if text::same(json::text_field_or_empty(&products[i], fields::SELLER_ID), seller)
            && was_alerted(&products[i], now) {
            return true;
        }
        i = i + 1;
    }
    false
}

// --------------------------------------------------------------------- digests

/// The sellers of the products of `some` that run low, each once, in order of
/// appearance, without those on cooldown by `all` products.
pub open spec fn due_sellers(some: Seq<Json>, all: Seq<Json>, now: Timestamp) -> Seq<Seq<char>>
    decreases some.len(),
{
    if some.len() == 0 {
        Seq::empty()
    } else {
        let before = due_sellers(some.drop_last(), all, now);
        let seller = stock_seller(some.last());
        if is_low(some.last()) && !on_cooldown(all, seller, now) {
            lists::with_distinct(before, seller)
        } else {
            before
        }
    }
}

/// The positions of the products of a seller that run low, in order.
pub open spec fn low_positions(products: Seq<Json>, seller: Seq<char>) -> Seq<int>
    decreases products.len(),
{
    if products.len() == 0 {
        Seq::empty()
    } else {
        let before = low_positions(products.drop_last(), seller);
        if is_low(products.last()) && stock_seller(products.last()) == seller {
            before.push(products.len() - 1)
        } else {
            before
        }
    }
}

/// What a seller is told of in one email.
pub struct SellerDigest {
    pub seller_id: String,
    /// The positions of their products that run low.
    pub positions: Vec<usize>,
}

/// One digest for each seller who is due one, each with all products of the
/// seller that run low.
pub open spec fn digests_products(
    v: Seq<SellerDigest>,
    products: Seq<Json>,
    now: Timestamp,
) -> bool {
    let sellers = due_sellers(products, products, now);
    &&& v.len() == sellers.len()
    &&& forall|i: int|
        0 <= i < v.len() ==> (#[trigger] v[i]).seller_id@ == sellers[i] && as_ints(v[i].positions@)
            == low_positions(products, sellers[i])
}

/// The sellers who are due a digest.
fn sellers_due(products: &Vec<serde_json::Value>, now: Timestamp) -> (r: Vec<String>)
    requires
        now.of_clock(),
    ensures
        texts(r@) == due_sellers(jsons(products@), jsons(products@), now),
{
    let ghost all = jsons(products@);
    let mut sellers: Vec<String> = Vec::new();
    let mut i: usize = 0;
    assert(texts(sellers@) =~= due_sellers(all.take(0), all, now));
    while i < products.len()
        invariant
            i <= products@.len(),
            now.of_clock(),
            all == jsons(products@),
            texts(sellers@) == due_sellers(all.take(i as int), all, now),
        decreases products@.len() - i,
    {
        proof {
            assert(all.take(i + 1).drop_last() =~= all.take(i as int));
            assert(all.take(i + 1).last() == json_of(products@[i as int]));
        }
        if runs_low(&products[i]) {
            let seller = json::text_field_or_empty(&products[i], fields::SELLER_ID);
            if !seller_on_cooldown(products, seller, now) {
                lists::add_distinct(&mut sellers, seller);
            }
        }
        i = i + 1;
    }
    assert(all.take(i as int) =~= all);
    sellers
}

/// The positions of the products of a seller that run low.
fn low_products_of(products: &Vec<serde_json::Value>, seller: &str) -> (r: Vec<usize>)
    ensures
        as_ints(r@) == low_positions(jsons(products@), seller@),
{
    let ghost all = jsons(products@);
    let mut positions: Vec<usize> = Vec::new();
    let mut i: usize = 0;
    assert(as_ints(positions@) =~= low_positions(all.take(0), seller@));
    while i < products.len()
        invariant
            i <= products@.len(),
            all == jsons(products@),
            as_ints(positions@) == low_positions(all.take(i as int), seller@),
        decreases products@.len() - i,
    {
        proof {
            assert(all.take(i + 1).drop_last() =~= all.take(i as int));
            assert(all.take(i + 1).last() == json_of(products@[i as int]));
        }
        if runs_low(&products[i]) && text::same(
            json::text_field_or_empty(&products[i], fields::SELLER_ID),
            seller,
        ) {
            let ghost before = as_ints(positions@);
            positions.push(i);
            assert(as_ints(positions@) =~= before.push(i as int));
        }
        i = i + 1;
    }
    assert(all.take(i as int) =~= all);
    positions
}

/// The digests that are due: one for each seller of a product that runs low,
/// in order of first appearance, unless the seller was told of a product less
/// than the cooldown ago.
pub fn low_stock_digests(products: &Vec<serde_json::Value>, now: Timestamp) -> (r: Vec<
    SellerDigest,
>)
    requires
        now.of_clock(),
    ensures
        digests_products(r@, jsons(products@), now),
{
    let sellers = sellers_due(products, now);
    let ghost all = jsons(products@);
    let ghost due = due_sellers(all, all, now);
    let mut out: Vec<SellerDigest> = Vec::new();
    let mut k: usize = 0;
    while k < sellers.len()
        invariant
            k <= sellers@.len(),
            all == jsons(products@),
            texts(sellers@) == due,
            out@.len() == k,
            forall|i: int|
                0 <= i < k ==> (#[trigger] out@[i]).seller_id@ == due[i] && as_ints(
                    out@[i].positions@,
                ) == low_positions(all, due[i]),
        decreases sellers@.len() - k,
    {
        assert(texts(sellers@)[k as int] == sellers@[k as int]@);
        let positions = low_products_of(products, sellers[k].as_str());
        out.push(SellerDigest { seller_id: sellers[k].clone(), positions });
        k = k + 1;
    }
    assert(texts(sellers@).len() == sellers@.len());
    out
}

// ----------------------------------------------------------------------- mails

/// A digest as it is written to a seller.
pub struct LowStockAlert {
    /// The products that it tells of.
    pub product_ids: Vec<String>,
    pub email: String,
    pub subject: String,
    /// The products with what is left of them.
    pub lines: Vec<LowStockLine>,
    pub lang: String,
}

/// The seller can be and wants to be written to.
pub open spec fn accepts_mail(user: Json) -> bool {
    json::text_or_empty(user, fields::EMAIL@).len() > 0 && json::flag_at_or(
        user,
        fields::EMAIL_CONSENT@,
        false,
    )
}

/// The name of a product in an alert.
pub open spec fn alert_name(product: Json) -> Seq<char> {
    json::text_at_or(product, fields::NAME@, "Your product"@)
}

/// The units that an alert says are left: none where the stock is below
/// nothing, and no more than `u32` holds.
pub open spec fn units_left(product: Json) -> u32 {
    let n = stock_of(product);
    if n < 0 {
        0
    } else if n > u32::MAX {
        u32::MAX
    } else {
        n as u32
    }
}

/// The language of an alert.
pub open spec fn alert_lang(user: Json) -> Seq<char> {
    json::text_at_or(user, fields::PREFERRED_LANGUAGE@, "en"@)
}

/// The names of products with commas between them.
pub open spec fn names_listed(products: Seq<Json>) -> Seq<char>
    decreases products.len(),
{
    if products.len() == 0 {
        Seq::empty()
    } else if products.len() == 1 {
        alert_name(products[0])
    } else {
        names_listed(products.drop_last()) + ", "@ + alert_name(products.last())
    }
}

/// The products at some positions.
pub open spec fn products_at(products: Seq<Json>, positions: Seq<usize>) -> Seq<Json> {
    Seq::new(positions.len(), |i: int| products[positions[i] as int])
}

/// `a` tells `user` of `low` products.
pub open spec fn tells_of(a: LowStockAlert, low: Seq<Json>, user: Json) -> bool {
    &&& a.product_ids@.len() == low.len()
    &&& a.lines@.len() == low.len()
    &&& forall|i: int|
        0 <= i < low.len() ==> (#[trigger] a.product_ids@[i])@ == json::text_or_empty(
            low[i],
            fields::ID@,
        )
    &&& forall|i: int|
        0 <= i < low.len() ==> (#[trigger] a.lines@[i]).product_name@ == alert_name(low[i])
            && a.lines@[i].stock == units_left(low[i])
    &&& a.email@ == json::text_or_empty(user, fields::EMAIL@)
    &&& a.subject@ == wording(
        alert_lang(user),
        "[Origna] Low stock alert: "@,
        "[Origna] Alerte de stock bas : "@,
    ) + names_listed(low)
    &&& a.lang@ == alert_lang(user)
}

/// The units that an alert says are left of a product.
fn left_of(product: &serde_json::Value) -> (r: u32)
    ensures
        r == units_left(json_of(*product)),
{
    let n: i64 = json::int_field_or(product, fields::STOCK_QUANTITY, 0);
    if n < 0 {
        0
    } else if n > u32::MAX as i64 {
        u32::MAX
    } else {
        n as u32
    }
}

/// The digest of the products at `positions` to their seller, where the seller
/// can be and wants to be written to. `seller` is the seller's document, if
/// found.
pub fn low_stock_warning(
    products: &Vec<serde_json::Value>,
    positions: &Vec<usize>,
    seller: Option<&serde_json::Value>,
) -> (r: Option<LowStockAlert>)
    requires
        forall|i: int| 0 <= i < positions@.len() ==> (#[trigger] positions@[i]) < products@.len(),
    ensures
        match r {
            Some(a) => seller is Some && accepts_mail(json_of(*seller->0)) && tells_of(
                a,
                products_at(jsons(products@), positions@),
                json_of(*seller->0),
            ),
            None => seller is None || !accepts_mail(json_of(*seller->0)),
        },
{
    let user = seller?;
    let email = json::text_field_or_empty(user, fields::EMAIL);
    if email.is_empty() || !json::flag_field_or(user, fields::EMAIL_CONSENT, false) {
        return None;
    }
    let lang = json::text_field_or(user, fields::PREFERRED_LANGUAGE, "en");
    let ghost low = products_at(jsons(products@), positions@);
    let mut product_ids: Vec<String> = Vec::new();
    let mut lines: Vec<LowStockLine> = Vec::new();
    let mut names = String::new();
    let mut i: usize = 0;
    assert(names@ =~= names_listed(low.take(0)));
    while i < positions.len()
        invariant
            i <= positions@.len(),
            forall|k: int|
                0 <= k < positions@.len() ==> (#[trigger] positions@[k]) < products@.len(),
            low == products_at(jsons(products@), positions@),
            product_ids@.len() == i,
            lines@.len() == i,
            forall|k: int|
                0 <= k < i ==> (#[trigger] product_ids@[k])@ == json::text_or_empty(
                    low[k],
                    fields::ID@,
                ),
            forall|k: int|
                0 <= k < i ==> (#[trigger] lines@[k]).product_name@ == alert_name(low[k])
                    && lines@[k].stock == units_left(low[k]),
            names@ == names_listed(low.take(i as int)),
        decreases positions@.len() - i,
    {
        let product = &products[positions[i]];
        let name = json::text_field_or(product, fields::NAME, "Your product");
        proof {
            assert(low[i as int] == json_of(*product));
            assert(low.take(i + 1).drop_last() =~= low.take(i as int));
            assert(low.take(i + 1).last() == low[i as int]);
        }
        let ghost before = names@;
        if i > 0 {
            names.append(", ");
        }
        names.append(name);
        proof {
            if i == 0 {
                assert(before =~= Seq::<char>::empty());
                assert(names@ =~= name@);
            } else {
                assert(names@ =~= before + ", "@ + name@);
            }
        }
        product_ids.push(json::text_field_or_empty(product, fields::ID).to_owned());
        lines.push(LowStockLine { product_name: name.to_owned(), stock: left_of(product) });
        i = i + 1;
    }
    assert(low.take(i as int) =~= low);
    let opening = if text::same(lang, "fr") {
        "[Origna] Alerte de stock bas : "
    } else {
        "[Origna] Low stock alert: "
    };
    Some(
        LowStockAlert {
            product_ids,
            email: email.to_owned(),
            subject: text::join2(opening, names.as_str()),
            lines,
            lang: lang.to_owned(),
        },
    )
}

// ------------------------------------------------------------------------ laws

/// A seller gets no more than one digest, and gets one exactly where a product
/// of theirs runs low and they were told of none within the cooldown.
pub proof fn law_one_digest_per_seller(some: Seq<Json>, all: Seq<Json>, now: Timestamp)
    ensures
        due_sellers(some, all, now).no_duplicates(),
        forall|s: Seq<char>| #[trigger]
            due_sellers(some, all, now).contains(s) <==> !on_cooldown(all, s, now) && exists|i: int|
                0 <= i < some.len() && is_low(#[trigger] some[i]) && stock_seller(some[i]) == s,
    decreases some.len(),
{
    if some.len() > 0 {
        let init = some.drop_last();
        let before = due_sellers(init, all, now);
        let last = some.last();
        let s0 = stock_seller(last);
        let now_due = due_sellers(some, all, now);
        law_one_digest_per_seller(init, all, now);
        assert forall|s: Seq<char>| #[trigger] now_due.contains(s) <==> !on_cooldown(all, s, now)
            && exists|i: int|
            0 <= i < some.len() && is_low(#[trigger] some[i]) && stock_seller(some[i]) == s by {
            if before.contains(s) {
                let i = choose|i: int|
                    0 <= i < init.len() && is_low(#[trigger] init[i]) && stock_seller(init[i]) == s;
                assert(some[i] == init[i]);
                let j = choose|j: int| 0 <= j < before.len() && before[j] == s;
                assert(now_due[j] == s);
            }
            if now_due.contains(s) && !before.contains(s) {
                assert(some[some.len() - 1] == last);
            }
            if !on_cooldown(all, s, now) && exists|i: int|
                0 <= i < some.len() && is_low(#[trigger] some[i]) && stock_seller(some[i]) == s {
                let i = choose|i: int|
                    0 <= i < some.len() && is_low(#[trigger] some[i]) && stock_seller(some[i]) == s;
                if i < init.len() {
                    assert(init[i] == some[i]);
                } else if !before.contains(s0) {
                    assert(now_due[before.len() as int] == s0);
                }
            }
        }
    }
}

/// A digest tells of exactly the products of its seller that run low.
pub proof fn law_digest_is_complete(products: Seq<Json>, seller: Seq<char>)
    ensures
        forall|i: int| #[trigger]
            low_positions(products, seller).contains(i) <==> 0 <= i < products.len() && is_low(
                products[i],
            ) && stock_seller(products[i]) == seller,
    decreases products.len(),
{
    if products.len() > 0 {
        let init = products.drop_last();
        let before = low_positions(init, seller);
        let after = low_positions(products, seller);
        law_digest_is_complete(init, seller);
        assert forall|i: int| #[trigger] after.contains(i) <==> 0 <= i < products.len() && is_low(
            products[i],
        ) && stock_seller(products[i]) == seller by {
            assert(before.contains(i) <==> 0 <= i < init.len() && is_low(init[i]) && stock_seller(
                init[i],
            ) == seller);
            if before.contains(i) {
                let j = choose|j: int| 0 <= j < before.len() && before[j] == i;
                assert(after[j] == i);
            }
            if i == products.len() - 1 && is_low(products[i]) && stock_seller(products[i])
                == seller {
                assert(after[before.len() as int] == i);
            }
        }
    }
}

/// A seller who was told of any of their products is left alone for the
/// cooldown, whatever else runs low.
pub proof fn law_seller_cooldown(products: Seq<Json>, k: int, told: Timestamp, now: Timestamp)
    requires
        0 <= k < products.len(),
        stored_instant(products[k], fields::LAST_LOW_STOCK_ALERT_AT@) == Some(told),
        time::nanos_between(now, told) < 23 * 3600 * 1_000_000_000,
    ensures
        !due_sellers(products, products, now).contains(stock_seller(products[k])),
{
    law_one_digest_per_seller(products, products, now);
    assert(on_cooldown(products, stock_seller(products[k]), now));
}

/// A product runs low exactly where it names its seller, its stock is tracked,
/// and it has no more units than its threshold: the one that it names, if that
/// is not nothing, or else five. A product without stock runs low.
pub proof fn law_low_by_its_threshold(product: Json, inventory: Json)
    requires
        json::member(product, "inventory"@) == Some(inventory),
    ensures
        is_low(product) <==> {
            let threshold = json::int_at_or(inventory, "lowStockThreshold"@, 5);
            &&& json::text_or_empty(product, "sellerId"@).len() > 0
            &&& json::flag_at(inventory, "trackQuantity"@) != Some(false)
            &&& threshold != 0
            &&& json::int_at_or(product, "stockQuantity"@, 0) <= threshold
        },
{
}

/// A product that says nothing of its inventory runs low at five units.
pub proof fn law_low_by_default(product: Json)
    requires
        json::member(product, "inventory"@) is None,
    ensures
        is_low(product) <==> json::text_or_empty(product, "sellerId"@).len() > 0 && json::int_at_or(
            product,
            "stockQuantity"@,
            0,
        ) <= 5,
{
}

/// A seller is left alone exactly while one of their products was told of less
/// than 23 hours ago.
pub proof fn law_cooldown_lasts_23_hours(products: Seq<Json>, seller: Seq<char>, now: Timestamp)
    ensures
        on_cooldown(products, seller, now) <==> exists|i: int|
            0 <= i < products.len() && json::text_or_empty(#[trigger] products[i], "sellerId"@)
                == seller && (stored_instant(products[i], "lastLowStockAlertAt"@) matches Some(t)
                && time::nanos_between(now, t) < 23 * 3600 * 1_000_000_000),
{
    if on_cooldown(products, seller, now) {
        let i = choose|i: int|
            0 <= i < products.len() && stock_seller(#[trigger] products[i]) == seller
                && recently_alerted(products[i], now);
        assert(json::text_or_empty(products[i], "sellerId"@) == seller);
    }
    if exists|i: int|
        0 <= i < products.len() && json::text_or_empty(#[trigger] products[i], "sellerId"@)
            == seller && (stored_instant(products[i], "lastLowStockAlertAt"@) matches Some(t)
            && time::nanos_between(now, t) < 23 * 3600 * 1_000_000_000) {
        let i = choose|i: int|
            0 <= i < products.len() && json::text_or_empty(#[trigger] products[i], "sellerId"@)
                == seller && (stored_instant(products[i], "lastLowStockAlertAt"@) matches Some(t)
                && time::nanos_between(now, t) < 23 * 3600 * 1_000_000_000);
        assert(stock_seller(products[i]) == seller);
    }
}

/// Digests keep the order of the products: a seller comes behind those whose
/// low products come first, and each digest lists its products in order.
pub proof fn law_digests_in_order(
    some: Seq<Json>,
    product: Json,
    all: Seq<Json>,
    now: Timestamp,
    seller: Seq<char>,
)
    ensures
        ({
            let s = json::text_or_empty(product, "sellerId"@);
            let before = due_sellers(some, all, now);
            due_sellers(some.push(product), all, now) == if is_low(product) && !on_cooldown(
                all,
                s,
                now,
            ) && !before.contains(s) {
                before.push(s)
            } else {
                before
            }
        }),
        low_positions(some.push(product), seller) == if is_low(product) && json::text_or_empty(
            product,
            "sellerId"@,
        ) == seller {
            low_positions(some, seller).push(some.len() as int)
        } else {
            low_positions(some, seller)
        },
        due_sellers(Seq::empty(), all, now).len() == 0,
        low_positions(Seq::empty(), seller).len() == 0,
{
    assert(some.push(product).drop_last() =~= some);
}

/// A digest goes to the seller's own address, names each of its products once
/// with what is left of it, never less than nothing, and is sent only with the
/// seller's consent.
pub proof fn law_digest_mail(a: LowStockAlert, low: Seq<Json>, user: Json)
    requires
        tells_of(a, low, user),
    ensures
        a.email@ == json::text_or_empty(user, "email"@),
        a.lines@.len() == low.len() && a.product_ids@.len() == low.len(),
        forall|i: int|
            0 <= i < low.len() ==> {
                let stock = json::int_at_or(low[i], "stockQuantity"@, 0);
                &&& (#[trigger] a.product_ids@[i])@ == json::text_or_empty(low[i], "id"@)
                &&& 0 <= stock <= u32::MAX ==> a.lines@[i].stock == stock
                &&& stock < 0 ==> a.lines@[i].stock == 0
                &&& stock > u32::MAX ==> a.lines@[i].stock == u32::MAX
            },
        forall|i: int|
            0 <= i < low.len() ==> {
                &&& json::text_at(low[i], "name"@) matches Some(n) ==> (
                #[trigger] a.lines@[i]).product_name@ == n
                &&& json::text_at(low[i], "name"@) is None ==> a.lines@[i].product_name@
                    == "Your product"@
            },
        accepts_mail(user) <==> json::text_or_empty(user, "email"@).len() > 0 && json::flag_at(
            user,
            "emailConsent"@,
        ) == Some(true),
        json::text_at(user, "preferredLanguage"@) is None ==> a.lang@ == "en"@,
        json::text_at(user, "preferredLanguage"@) matches Some(l) ==> a.lang@ == l,
{
    assert forall|i: int| 0 <= i < low.len() implies a.lines@[i].stock == units_left(
        low[i],
    ) && (#[trigger] a.product_ids@[i])@ == json::text_or_empty(low[i], "id"@) by {
        assert(a.lines@[i].product_name@ == alert_name(low[i]));
    }
}

/// There is one digest for each seller who is due one, in their order, and it
/// holds the positions of all their low products.
pub proof fn law_digests_are_listed(
    v: Seq<SellerDigest>,
    products: Seq<Json>,
    now: Timestamp,
    i: int,
)
    requires
        digests_products(v, products, now),
        0 <= i < v.len(),
    ensures
        v.len() == due_sellers(products, products, now).len(),
        v[i].seller_id@ == due_sellers(products, products, now)[i],
        v[i].positions@.len() == low_positions(products, v[i].seller_id@).len(),
        forall|k: int|
            0 <= k < v[i].positions@.len() ==> #[trigger] v[i].positions@[k] == low_positions(
                products,
                v[i].seller_id@,
            )[k],
{
    assert(as_ints(v[i].positions@).len() == v[i].positions@.len());
    assert forall|k: int| 0 <= k < v[i].positions@.len() implies #[trigger] v[i].positions@[k]
        == low_positions(products, v[i].seller_id@)[k] by {
        assert(as_ints(v[i].positions@)[k] == v[i].positions@[k]);
    }
}

} // verus!

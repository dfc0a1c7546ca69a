//! Payout records for delivered orders.
use vstd::prelude::*;

use crate::fields;
use crate::json;
use crate::json::{json_of, jsons, Json};
use crate::text;
use crate::time;
use crate::time::{quotient, Timestamp};

verus! {

/// The flag of the first provider named `stripe`.
pub open spec fn stripe_flag(providers: Seq<Json>) -> Option<bool>
    decreases providers.len(),
{
    if providers.len() == 0 {
        None
    } else if json::text_at(providers[0], fields::NAME@) == Some("stripe"@) {
        json::flag_at(providers[0], "enabled"@)
    } else {
        stripe_flag(providers.drop_first())
    }
}

/// Stripe is in use unless the configuration switches it off.
pub open spec fn stripe_enabled(config: Json) -> bool {
    match stripe_flag(json::items_at(config, "providers"@)) {
        Some(b) => b,
        None => true,
    }
}

/// Whether the configuration of payment providers, `null` for none, leaves
/// Stripe in use.
pub fn stripe_provider_enabled(config: &serde_json::Value) -> (r: bool)
    ensures
        r == stripe_enabled(json_of(*config)),
{
    let providers = match json::list_field(config, "providers") {
        Some(v) => v,
        None => return true,
    };
    let ghost all = jsons(providers@);
    assert(all.skip(0) =~= all);
    let mut i: usize = 0;
    while i < providers.len()
        invariant
            i <= providers@.len(),
            all == jsons(providers@),
            all == json::items_at(json_of(*config), "providers"@),
            stripe_flag(all) == stripe_flag(all.skip(i as int)),
        decreases providers@.len() - i,
    {
        assert(all.skip(i as int)[0] == all[i as int]);
        assert(all.skip(i as int).drop_first() =~= all.skip(i + 1));
        if let Some(name) = json::text_field(&providers[i], fields::NAME) {
            if text::same(name, "stripe") {
                return match json::flag_field(&providers[i], "enabled") {
                    Some(b) => b,
                    None => true,
                };
            }
        }
        i = i + 1;
    }
    true
}

/// The next step in paying out an order.
#[derive(Debug, Clone, Copy, PartialEq, Eq)]
pub enum PayoutStep {
    /// The order is left alone.
    Skip,
    CountDisputes,
    CountReturns,
    /// The sellers of the order are paid out.
    Pay,
}

/// The next step in paying out an order: it needs a payment, and nothing open
/// against it. Of its open disputes and returns the numbers are given, nothing
/// where they were not counted yet.
pub open spec fn payout_step(
    order: Json,
    open_disputes: Option<usize>,
    open_returns: Option<usize>,
) -> PayoutStep {
    if json::text_or_empty(order, fields::PAYMENT_INTENT_ID@).len() == 0 {
        PayoutStep::Skip
    } else if open_disputes is None {
        PayoutStep::CountDisputes
    } else if open_disputes->0 > 0 {
        PayoutStep::Skip
    } else if open_returns is None {
        PayoutStep::CountReturns
    } else if open_returns->0 > 0 {
        PayoutStep::Skip
    } else {
        PayoutStep::Pay
    }
}

/// The next step in paying out an order, from what is known.
pub fn next_payout_step(
    order: &serde_json::Value,
    open_disputes: Option<usize>,
    open_returns: Option<usize>,
) -> (r: PayoutStep)
    ensures
        r == payout_step(json_of(*order), open_disputes, open_returns),
{
    if json::text_field_or_empty(order, fields::PAYMENT_INTENT_ID).is_empty() {
        return PayoutStep::Skip;
    }
    match open_disputes {
        None => return PayoutStep::CountDisputes,
        Some(n) => {
            if n > 0 {
                return PayoutStep::Skip;
            }
        },
    }
    match open_returns {
        None => PayoutStep::CountReturns,
        Some(n) => if n > 0 {
            PayoutStep::Skip
        } else {
            PayoutStep::Pay
        },
    }
}

/// An order with an open dispute or an open return is never paid out.
pub proof fn law_disputed_order_not_paid(
    order: Json,
    open_disputes: Option<usize>,
    open_returns: Option<usize>,
)
    requires
        (open_disputes matches Some(n) && n > 0) || (open_returns matches Some(n) && n > 0),
    ensures
        payout_step(order, open_disputes, open_returns) != PayoutStep::Pay,
{
}

// --------------------------------------------------------- what sellers earned

/// The item was delivered.
pub open spec fn is_delivered(item: Json) -> bool {
    json::text_at(item, fields::STATUS@) == Some("delivered"@)
}

/// The seller of an item.
pub open spec fn item_seller(item: Json) -> Seq<char> {
    json::text_or_empty(item, fields::SELLER_ID@)
}

/// What an item cost: its price as often as it was bought, once where that is
/// not said.
pub open spec fn item_amount(item: Json) -> int {
    json::int_at_or(item, fields::PRICE_CENTS@, 0) * json::int_at_or(item, fields::QUANTITY@, 1)
}

/// What the delivered items of a seller cost together.
pub open spec fn seller_total(items: Seq<Json>, seller: Seq<char>) -> int
    decreases items.len(),
{
    if items.len() == 0 {
        0
    } else {
        seller_total(items.drop_last(), seller) + if is_delivered(items.last()) && item_seller(
            items.last(),
        ) == seller {
            item_amount(items.last())
        } else {
            0
        }
    }
}

/// What all delivered items cost together.
pub open spec fn delivered_total(items: Seq<Json>) -> int
    decreases items.len(),
{
    if items.len() == 0 {
        0
    } else {
        delivered_total(items.drop_last()) + if is_delivered(items.last()) {
            item_amount(items.last())
        } else {
            0
        }
    }
}

/// The sellers of the delivered items, each once, in order of appearance.
pub open spec fn paid_sellers(items: Seq<Json>) -> Seq<Seq<char>>
    decreases items.len(),
{
    if items.len() == 0 {
        Seq::empty()
    } else {
        let before = paid_sellers(items.drop_last());
        if is_delivered(items.last()) && !before.contains(item_seller(items.last())) {
            before.push(item_seller(items.last()))
        } else {
            before
        }
    }
}

/// Every amount on the way to the totals fits in `i64`.
pub open spec fn totals_fit(items: Seq<Json>) -> bool
    decreases items.len(),
{
    items.len() == 0 || (totals_fit(items.drop_last()) && (is_delivered(items.last()) ==> {
        &&& i64::MIN <= item_amount(items.last()) <= i64::MAX
        &&& i64::MIN <= seller_total(items, item_seller(items.last())) <= i64::MAX
    }))
}

/// What one seller earned on an order.
pub struct SellerAmount {
    pub seller_id: String,
    pub amount_cents: i64,
}

/// The sellers of a list of amounts.
pub open spec fn sellers_of(v: Seq<SellerAmount>) -> Seq<Seq<char>> {
    Seq::new(v.len(), |i: int| v[i].seller_id@)
}

/// The list holds each paid seller with their total.
pub open spec fn lists_totals(v: Seq<SellerAmount>, items: Seq<Json>) -> bool {
    &&& sellers_of(v) == paid_sellers(items)
    &&& forall|i: int|
        0 <= i < v.len() ==> (#[trigger] v[i]).amount_cents == seller_total(items, v[i].seller_id@)
}

proof fn lemma_totals_fit_prefix(items: Seq<Json>, k: int)
    requires
        totals_fit(items),
        0 <= k <= items.len(),
    ensures
        totals_fit(items.take(k)),
    decreases items.len() - k,
{
    if k == items.len() {
        assert(items.take(k) =~= items);
    } else {
        lemma_totals_fit_prefix(items, k + 1);
        assert(items.take(k + 1).drop_last() =~= items.take(k));
    }
}

/// The paid sellers are distinct, and they are the sellers of the delivered
/// items.
pub proof fn law_paid_sellers(items: Seq<Json>)
    ensures
        paid_sellers(items).no_duplicates(),
        forall|s: Seq<char>| #[trigger]
            paid_sellers(items).contains(s) <==> exists|i: int|
                0 <= i < items.len() && is_delivered(#[trigger] items[i]) && item_seller(items[i])
                    == s,
    decreases items.len(),
{
    if items.len() > 0 {
        let init = items.drop_last();
        let before = paid_sellers(init);
        law_paid_sellers(init);
        let last = items.last();
        let s0 = item_seller(last);
        let now = paid_sellers(items);
        assert forall|s: Seq<char>| now.contains(s) <==> (before.contains(s) || (is_delivered(last)
            && s == s0)) by {
            if is_delivered(last) && !before.contains(s0) {
                assert(now == before.push(s0));
                if before.contains(s) {
                    let i = choose|i: int| 0 <= i < before.len() && before[i] == s;
                    assert(now[i] == s);
                }
                if s == s0 {
                    assert(now[before.len() as int] == s);
                }
            }
        }
        assert forall|s: Seq<char>| #[trigger] now.contains(s) implies exists|i: int|
            0 <= i < items.len() && is_delivered(#[trigger] items[i]) && item_seller(items[i])
                == s by {
            if before.contains(s) {
                let i = choose|i: int|
                    0 <= i < init.len() && is_delivered(#[trigger] init[i]) && item_seller(init[i])
                        == s;
                assert(items[i] == init[i]);
            } else {
                assert(items[items.len() - 1] == last);
            }
        }
        assert forall|s: Seq<char>|
            (exists|i: int|
                0 <= i < items.len() && is_delivered(#[trigger] items[i]) && item_seller(items[i])
                    == s) implies #[trigger] now.contains(s) by {
            let i = choose|i: int|
                0 <= i < items.len() && is_delivered(#[trigger] items[i]) && item_seller(items[i])
                    == s;
            if i < init.len() {
                assert(init[i] == items[i]);
                assert(before.contains(s));
            }
        }
    }
}

/// What the delivered items of an order earned each seller; nothing where an
/// amount does not fit in `i64`.
pub fn seller_totals(order: &serde_json::Value) -> (r: Option<Vec<SellerAmount>>)
    ensures
        match r {
            Some(v) => totals_fit(json::items_at(json_of(*order), fields::ITEMS@))
                && lists_totals(v@, json::items_at(json_of(*order), fields::ITEMS@)),
            None => !totals_fit(json::items_at(json_of(*order), fields::ITEMS@)),
        },
{
    let mut out: Vec<SellerAmount> = Vec::new();
    let items = match json::list_field(order, fields::ITEMS) {
        Some(v) => v,
        None => {
            assert(sellers_of(out@) =~= Seq::<Seq<char>>::empty());
            return Some(out);
        },
    };
    let ghost all = jsons(items@);
    let mut i: usize = 0;
    assert(sellers_of(out@) =~= paid_sellers(all.take(0)));
    while i < items.len()
        invariant
            i <= items@.len(),
            all == jsons(items@),
            all == json::items_at(json_of(*order), fields::ITEMS@),
            totals_fit(all.take(i as int)),
            lists_totals(out@, all.take(i as int)),
        decreases items@.len() - i,
    {
        let item = &items[i];
        let ghost done = all.take(i as int);
        let ghost next = all.take(i + 1);
        proof {
            assert(next.drop_last() =~= done);
            assert(next.last() == json_of(*item));
            if totals_fit(all) {
                lemma_totals_fit_prefix(all, i + 1);
            }
        }
        let delivered = match json::text_field(item, fields::STATUS) {
            Some(s) => text::same(s, "delivered"),
            None => false,
        };
        if !delivered {
            i = i + 1;
            continue;
        }
        let seller = json::text_field_or_empty(item, fields::SELLER_ID);
        let price: i64 = json::int_field_or(item, fields::PRICE_CENTS, 0);
        let qty: i64 = json::int_field_or(item, fields::QUANTITY, 1);
        let amount: i64 = match price.checked_mul(qty) {
            Some(n) => n,
            None => return None,
        };
        let mut k: usize = 0;
        while k < out.len() && !text::same(out[k].seller_id.as_str(), seller)
            invariant
                k <= out@.len(),
                forall|j: int| 0 <= j < k ==> (#[trigger] out@[j]).seller_id@ != seller@,
            decreases out@.len() - k,
        {
            k = k + 1;
        }
        let ghost before = out@;
        if k < out.len() {
            let total: i64 = match out[k].amount_cents.checked_add(amount) {
                Some(n) => n,
                None => return None,
            };
            proof {
                assert(before[k as int].amount_cents == seller_total(done, seller@));
                assert(sellers_of(before)[k as int] == seller@);
                assert(paid_sellers(done).contains(seller@));
            }
            let name = out[k].seller_id.clone();
            out.set(k, SellerAmount { seller_id: name, amount_cents: total });
            assert(sellers_of(out@) =~= sellers_of(before));
            proof {
                law_paid_sellers(done);
                assert forall|j: int| 0 <= j < out@.len() implies (#[trigger] out@[j]).amount_cents
                    == seller_total(next, out@[j].seller_id@) by {
                    if j != k {
                        assert(sellers_of(before)[j] != sellers_of(before)[k as int]);
                    }
                }
            }
        } else {
            proof {
                if paid_sellers(done).contains(seller@) {
                    let j = choose|j: int|
                        0 <= j < paid_sellers(done).len() && paid_sellers(done)[j] == seller@;
                    assert(sellers_of(before)[j] == before[j].seller_id@);
                }
                lemma_unpaid_total(done, seller@);
            }
            out.push(SellerAmount { seller_id: seller.to_owned(), amount_cents: amount });
            assert(sellers_of(out@) =~= sellers_of(before).push(seller@));
            proof {
                assert forall|j: int| 0 <= j < out@.len() implies (#[trigger] out@[j]).amount_cents
                    == seller_total(next, out@[j].seller_id@) by {
                    if j < before.len() {
                        assert(out@[j] == before[j]);
                    }
                }
            }
        }
        i = i + 1;
    }
    assert(all.take(i as int) =~= all);
    Some(out)
}

/// A seller without delivered items earned nothing.
proof fn lemma_unpaid_total(items: Seq<Json>, seller: Seq<char>)
    requires
        !paid_sellers(items).contains(seller),
    ensures
        seller_total(items, seller) == 0,
    decreases items.len(),
{
    if items.len() > 0 {
        let before = paid_sellers(items.drop_last());
        let s0 = item_seller(items.last());
        if is_delivered(items.last()) && !before.contains(s0) {
            assert(paid_sellers(items)[before.len() as int] == s0);
            if before.contains(seller) {
                let j = choose|j: int| 0 <= j < before.len() && before[j] == seller;
                assert(paid_sellers(items)[j] == seller);
            }
        }
        lemma_unpaid_total(items.drop_last(), seller);
    }
}

// ------------------------------------------------------------- fees and records

/// A seller's share of the platform fee, in proportion to their part of the
/// order and rounded to the cent.
pub open spec fn fee_share(amount: int, fee_total: int, subtotal: int) -> int {
    quotient(amount * fee_total + subtotal / 2, subtotal)
}

/// The amounts on the way to a seller's share fit in `i64`.
pub open spec fn share_fits(amount: int, fee_total: int, subtotal: int) -> bool {
    &&& i64::MIN <= amount * fee_total <= i64::MAX
    &&& amount * fee_total + subtotal / 2 <= i64::MAX
    &&& i64::MIN <= amount - fee_share(amount, fee_total, subtotal) <= i64::MAX
}

/// The subtotal that fees are shared by: the order's, at least a cent.
pub open spec fn sharing_subtotal(order: Json) -> i64 {
    let s = json::int_at_or(order, fields::SUBTOTAL_CENTS@, 0);
    if s < 1 {
        1
    } else {
        s
    }
}

/// The fee and the net amount of a seller; nothing where an amount does not
/// fit in `i64`.
pub fn split_amount(amount: i64, fee_total: i64, subtotal: i64) -> (r: Option<(i64, i64)>)
    requires
        subtotal >= 1,
    ensures
        match r {
            Some((fee, net)) => {
                &&& share_fits(amount as int, fee_total as int, subtotal as int)
                &&& fee == fee_share(amount as int, fee_total as int, subtotal as int)
                &&& fee + net == amount
            },
            None => !share_fits(amount as int, fee_total as int, subtotal as int),
        },
{
    let product: i64 = match amount.checked_mul(fee_total) {
        Some(n) => n,
        None => return None,
    };
    let rounded: i64 = match product.checked_add(subtotal / 2) {
        Some(n) => n,
        None => return None,
    };
    let fee: i64 = rounded / subtotal;
    match amount.checked_sub(fee) {
        Some(net) => Some((fee, net)),
        None => None,
    }
}

/// A payout as it is stored.
pub struct PayoutRecord {
    pub id: String,
    pub order_id: String,
    pub seller_id: String,
    pub amount_cents: i64,
    pub platform_fee_cents: i64,
    pub net_amount_cents: i64,
    pub status: String,
    pub payout_date: String,
    pub auto_captured: bool,
    pub created_at: String,
}

/// The record of what `seller` gets for an order.
pub open spec fn is_payout(
    p: PayoutRecord,
    order: Json,
    order_id: Seq<char>,
    seller: Seq<char>,
    now: Timestamp,
) -> bool {
    let amount = seller_total(json::items_at(order, fields::ITEMS@), seller);
    &&& p.id@ == order_id + "_"@ + seller
    &&& p.order_id@ == order_id
    &&& p.seller_id@ == seller
    &&& p.amount_cents == amount
    &&& p.platform_fee_cents == fee_share(
        amount,
        json::int_at_or(order, fields::PLATFORM_FEE_CENTS@, 0) as int,
        sharing_subtotal(order) as int,
    )
    &&& p.platform_fee_cents + p.net_amount_cents == amount
    &&& p.status@ == "completed"@
    &&& p.payout_date@ == time::rfc3339_text(now)
    &&& p.auto_captured
    &&& p.created_at@ == time::rfc3339_text(now)
}

/// Every amount that the payouts of an order need fits in `i64`.
pub open spec fn payouts_fit(order: Json) -> bool {
    let items = json::items_at(order, fields::ITEMS@);
    &&& totals_fit(items)
    &&& forall|i: int|
        0 <= i < paid_sellers(items).len() ==> share_fits(
            seller_total(items, #[trigger] paid_sellers(items)[i]),
            json::int_at_or(order, fields::PLATFORM_FEE_CENTS@, 0) as int,
            sharing_subtotal(order) as int,
        )
}

/// The payouts of an order, one for each seller of delivered items; nothing
/// where an amount does not fit in `i64`.
pub fn payout_records(order: &serde_json::Value, order_id: &str, now: Timestamp) -> (r: Option<
    Vec<PayoutRecord>,
>)
    requires
        now.of_clock(),
    ensures
        match r {
            Some(v) => {
                let sellers = paid_sellers(json::items_at(json_of(*order), fields::ITEMS@));
                &&& payouts_fit(json_of(*order))
                &&& v@.len() == sellers.len()
                &&& forall|i: int|
                    0 <= i < v@.len() ==> is_payout(
                        #[trigger] v@[i],
                        json_of(*order),
                        order_id@,
                        sellers[i],
                        now,
                    )
            },
            None => !payouts_fit(json_of(*order)),
        },
{
    let totals = seller_totals(order)?;
    let fee_total: i64 = json::int_field_or(order, fields::PLATFORM_FEE_CENTS, 0);
    let listed: i64 = json::int_field_or(order, fields::SUBTOTAL_CENTS, 0);
    let subtotal: i64 = if listed < 1 {
        1
    } else {
        listed
    };
    let ghost items = json::items_at(json_of(*order), fields::ITEMS@);
    let ghost sellers = paid_sellers(items);
    let mut out: Vec<PayoutRecord> = Vec::new();
    let mut i: usize = 0;
    while i < totals.len()
        invariant
            i <= totals@.len(),
            out@.len() == i,
            now.of_clock(),
            items == json::items_at(json_of(*order), fields::ITEMS@),
            sellers == paid_sellers(items),
            totals_fit(items),
            lists_totals(totals@, items),
            fee_total == json::int_at_or(json_of(*order), fields::PLATFORM_FEE_CENTS@, 0),
            subtotal == sharing_subtotal(json_of(*order)),
            subtotal >= 1,
            forall|j: int|
                0 <= j < i ==> share_fits(
                    seller_total(items, #[trigger] sellers[j]),
                    fee_total as int,
                    subtotal as int,
                ),
            forall|j: int|
                0 <= j < i ==> is_payout(
                    #[trigger] out@[j],
                    json_of(*order),
                    order_id@,
                    sellers[j],
                    now,
                ),
        decreases totals@.len() - i,
    {
        let amount: i64 = totals[i].amount_cents;
        let seller = totals[i].seller_id.as_str();
        assert(sellers_of(totals@)[i as int] == seller@);
        let (fee, net) = match split_amount(amount, fee_total, subtotal) {
            Some(p) => p,
            None => {
                assert(seller_total(items, sellers[i as int]) == amount);
                return None;
            },
        };
        let head = text::join2(order_id, "_");
        out.push(
            PayoutRecord {
                id: text::join2(head.as_str(), seller),
                order_id: order_id.to_owned(),
                seller_id: seller.to_owned(),
                amount_cents: amount,
                platform_fee_cents: fee,
                net_amount_cents: net,
                status: "completed".to_owned(),
                payout_date: time::to_rfc3339(now),
                auto_captured: true,
                created_at: time::to_rfc3339(now),
            },
        );
        i = i + 1;
    }
    assert(sellers_of(totals@).len() == totals@.len());
    Some(out)
}

/// How far the payouts of an order got.
#[derive(Debug, Clone, Copy, PartialEq, Eq)]
pub enum PayoutStatus {
    Completed,
    Partial,
    Failed,
}

impl PayoutStatus {
    /// The status as orders hold it.
    pub open spec fn text(&self) -> Seq<char> {
        match self {
            PayoutStatus::Completed => "completed"@,
            PayoutStatus::Partial => "partial"@,
            PayoutStatus::Failed => "failed"@,
        }
    }

    /// The status as orders hold it.
    pub fn as_str(&self) -> (r: &'static str)
        ensures
            r@ == self.text(),
    {
        match self {
            PayoutStatus::Completed => "completed",
            PayoutStatus::Partial => "partial",
            PayoutStatus::Failed => "failed",
        }
    }
}

/// The status of an order of whose `expected` payouts `stored` were stored.
pub open spec fn status_of(expected: nat, stored: nat) -> PayoutStatus {
    if stored == 0 {
        PayoutStatus::Failed
    } else if stored == expected {
        PayoutStatus::Completed
    } else {
        PayoutStatus::Partial
    }
}

/// The status of an order of whose `expected` payouts `stored` were stored.
pub fn payout_status(expected: usize, stored: usize) -> (r: PayoutStatus)
    ensures
        r == status_of(expected as nat, stored as nat),
{
    if stored == expected && stored > 0 {
        PayoutStatus::Completed
    } else if stored > 0 {
        PayoutStatus::Partial
    } else {
        PayoutStatus::Failed
    }
}

// ----------------------------------------------------------------------- laws

/// What `sellers` earned together.
pub open spec fn total_of(items: Seq<Json>, sellers: Seq<Seq<char>>) -> int
    decreases sellers.len(),
{
    if sellers.len() == 0 {
        0
    } else {
        total_of(items, sellers.drop_last()) + seller_total(items, sellers.last())
    }
}

/// One more item adds its amount to the sum over a list of distinct sellers
/// exactly where it was delivered and its seller is on the list.
proof fn lemma_total_of_step(items: Seq<Json>, sellers: Seq<Seq<char>>)
    requires
        items.len() > 0,
        sellers.no_duplicates(),
    ensures
        total_of(items, sellers) == total_of(items.drop_last(), sellers) + if is_delivered(
            items.last(),
        ) && sellers.contains(item_seller(items.last())) {
            item_amount(items.last())
        } else {
            0
        },
    decreases sellers.len(),
{
    if sellers.len() > 0 {
        let rest = sellers.drop_last();
        let s0 = item_seller(items.last());
        lemma_total_of_step(items, rest);
        if rest.contains(s0) {
            let j = choose|j: int| 0 <= j < rest.len() && rest[j] == s0;
            assert(sellers[j] == s0);
            assert(sellers.last() != s0);
        } else if sellers.contains(s0) {
            let j = choose|j: int| 0 <= j < sellers.len() && sellers[j] == s0;
            if j < rest.len() {
                assert(rest[j] == s0);
            }
        } else {
            assert(sellers[sellers.len() - 1] == sellers.last());
        }
    }
}

/// What the sellers of an order are paid adds up to what its delivered items
/// cost: nothing is lost and nothing is paid twice.
pub proof fn law_payouts_add_up(items: Seq<Json>)
    ensures
        total_of(items, paid_sellers(items)) == delivered_total(items),
    decreases items.len(),
{
    law_paid_sellers(items);
    if items.len() > 0 {
        let init = items.drop_last();
        let before = paid_sellers(init);
        let now = paid_sellers(items);
        law_payouts_add_up(init);
        law_paid_sellers(init);
        lemma_total_of_step(items, now);
        let s0 = item_seller(items.last());
        if is_delivered(items.last()) {
            if before.contains(s0) {
                assert(now == before);
            } else {
                assert(now.drop_last() =~= before);
                assert(now.last() == s0);
                assert(now[now.len() - 1] == s0);
                lemma_unpaid_total(init, s0);
            }
        }
    }
}

/// Where the platform takes no more than the order's subtotal, a seller's
/// share of the fee is no more than what they earned, and never negative.
pub proof fn law_fee_within_amount(amount: int, fee_total: int, subtotal: int)
    requires
        0 <= amount,
        0 <= fee_total <= subtotal,
        subtotal >= 1,
    ensures
        0 <= fee_share(amount, fee_total, subtotal) <= amount,
{
    let n = amount * fee_total + subtotal / 2;
    assert(0 <= amount * fee_total <= amount * subtotal) by (nonlinear_arith)
        requires
            0 <= amount,
            0 <= fee_total <= subtotal,
    ;
    assert(0 <= n / subtotal <= amount) by (nonlinear_arith)
        requires
            0 <= n,
            n <= amount * subtotal + subtotal / 2,
            subtotal >= 1,
            0 <= amount,
    ;
}

/// A seller who earned the whole subtotal bears the whole fee.
pub proof fn law_sole_seller_bears_fee(fee_total: int, subtotal: int)
    requires
        0 <= fee_total,
        subtotal >= 1,
    ensures
        fee_share(subtotal, fee_total, subtotal) == fee_total,
{
    let n = subtotal * fee_total + subtotal / 2;
    assert(0 <= subtotal * fee_total) by (nonlinear_arith)
        requires
            0 <= fee_total,
            subtotal >= 1,
    ;
    assert(n / subtotal == fee_total) by (nonlinear_arith)
        requires
            n == subtotal * fee_total + subtotal / 2,
            subtotal >= 1,
            0 <= fee_total,
    ;
}

/// The payouts of different sellers of an order are stored under different
/// identifiers.
pub proof fn law_payout_ids(order_id: Seq<char>, items: Seq<Json>, i: int, j: int)
    requires
        0 <= i < j < paid_sellers(items).len(),
    ensures
        order_id + "_"@ + paid_sellers(items)[i] != order_id + "_"@ + paid_sellers(items)[j],
{
    law_paid_sellers(items);
    let head = order_id + "_"@;
    let a = paid_sellers(items)[i];
    let b = paid_sellers(items)[j];
    if head + a == head + b {
        assert((head + a).skip(head.len() as int) =~= a);
        assert((head + b).skip(head.len() as int) =~= b);
    }
}

/// An item whose status is not `delivered` is nobody's: with it or without it
/// every seller earned the same, and the same sellers are paid. A delivered
/// item adds its price, as often as it was bought, to its seller, who is paid
/// behind those who were there before.
pub proof fn law_only_delivered_items_are_paid(items: Seq<Json>, item: Json, seller: Seq<char>)
    ensures
        json::text_at(item, "status"@) != Some("delivered"@) ==> {
            &&& seller_total(items.push(item), seller) == seller_total(items, seller)
            &&& paid_sellers(items.push(item)) == paid_sellers(items)
            &&& delivered_total(items.push(item)) == delivered_total(items)
        },
        json::text_at(item, "status"@) == Some("delivered"@) ==> {
            let owner = json::text_or_empty(item, "sellerId"@);
            let cost = json::int_at_or(item, "priceCents"@, 0) * json::int_at_or(
                item,
                "quantity"@,
                1,
            );
            &&& seller_total(items.push(item), owner) == seller_total(items, owner) + cost
            &&& seller != owner ==> seller_total(items.push(item), seller) == seller_total(
                items,
                seller,
            )
            &&& paid_sellers(items).contains(owner) ==> paid_sellers(items.push(item))
                == paid_sellers(items)
            &&& !paid_sellers(items).contains(owner) ==> paid_sellers(items.push(item))
                == paid_sellers(items).push(owner)
            &&& delivered_total(items.push(item)) == delivered_total(items) + cost
        },
        seller_total(Seq::empty(), seller) == 0,
        paid_sellers(Seq::empty()) == Seq::<Seq<char>>::empty(),
        delivered_total(Seq::empty()) == 0,
{
    assert(items.push(item).drop_last() =~= items);
    assert(items.push(item).last() == item);
}

/// A seller's share of the fee is their part of it to the nearest cent: the
/// fee as their amount stands to the order's subtotal, where halves go up.
pub proof fn law_fee_is_proportional(amount: int, fee_total: int, subtotal: int)
    requires
        0 <= amount,
        0 <= fee_total,
        subtotal >= 1,
    ensures
        2 * (amount * fee_total) - subtotal < 2 * (fee_share(amount, fee_total, subtotal)
            * subtotal),
        2 * (fee_share(amount, fee_total, subtotal) * subtotal) <= 2 * (amount * fee_total)
            + subtotal,
{
    let n = amount * fee_total + subtotal / 2;
    assert(0 <= amount * fee_total) by (nonlinear_arith)
        requires
            0 <= amount,
            0 <= fee_total,
    ;
    let q = n / subtotal;
    assert(q * subtotal <= n < q * subtotal + subtotal) by (nonlinear_arith)
        requires
            q == n / subtotal,
            subtotal >= 1,
            n >= 0,
    ;
}

/// A payout pays a seller what they earned on the order less their share of
/// the fee, by the order's subtotal or, where that is less than a cent, by a
/// cent. It is completed, and noted as made without the buyer's doing.
pub proof fn law_payout_is_amount_less_fee(
    p: PayoutRecord,
    order: Json,
    order_id: Seq<char>,
    seller: Seq<char>,
    now: Timestamp,
)
    requires
        is_payout(p, order, order_id, seller, now),
    ensures
        p.amount_cents == seller_total(json::items_at(order, "items"@), seller),
        p.net_amount_cents == p.amount_cents - p.platform_fee_cents,
        ({
            let stated = json::int_at_or(order, "subtotalCents"@, 0) as int;
            let subtotal = if stated < 1 { 1 } else { stated };
            let fee_total = json::int_at_or(order, "platformFeeCents"@, 0) as int;
            p.amount_cents >= 0 && fee_total >= 0 ==> {
                &&& 2 * (p.amount_cents * fee_total) - subtotal < 2 * (p.platform_fee_cents
                    * subtotal)
                &&& 2 * (p.platform_fee_cents * subtotal) <= 2 * (p.amount_cents * fee_total)
                    + subtotal
            }
        }),
        p.status@ == "completed"@,
        p.auto_captured,
        p.seller_id@ == seller,
        p.order_id@ == order_id,
        p.payout_date@ == time::rfc3339_text(now),
        p.created_at@ == time::rfc3339_text(now),
{
    let fee_total = json::int_at_or(order, "platformFeeCents"@, 0) as int;
    if p.amount_cents >= 0 && fee_total >= 0 {
        law_fee_is_proportional(
            p.amount_cents as int,
            fee_total,
            sharing_subtotal(order) as int,
        );
    }
}

/// An order is paid out exactly where it has a payment and both its open
/// disputes and its open returns were counted and are none.
pub proof fn law_paid_exactly_where_undisputed(
    order: Json,
    open_disputes: Option<usize>,
    open_returns: Option<usize>,
)
    ensures
        payout_step(order, open_disputes, open_returns) == PayoutStep::Pay <==> json::text_or_empty(
            order,
            "paymentIntentId"@,
        ).len() > 0 && open_disputes == Some(0usize) && open_returns == Some(0usize),
        payout_step(order, open_disputes, open_returns) == PayoutStep::CountDisputes
            <==> json::text_or_empty(order, "paymentIntentId"@).len() > 0 && open_disputes is None,
        payout_step(order, open_disputes, open_returns) == PayoutStep::CountReturns
            <==> json::text_or_empty(order, "paymentIntentId"@).len() > 0 && open_disputes == Some(
            0usize,
        ) && open_returns is None,
{
}

/// Stripe is off exactly where the first provider of that name is switched
/// off: without one, or with one that does not say, it is on.
pub proof fn law_stripe_is_on_unless_switched_off(config: Json, k: int)
    ensures
        ({
            let providers = json::items_at(config, "providers"@);
            let is_stripe = |p: Json| json::text_at(p, "name"@) == Some("stripe"@);
            &&& (forall|i: int|
                0 <= i < providers.len() ==> !is_stripe(#[trigger] providers[i]))
                ==> stripe_enabled(config)
            &&& 0 <= k < providers.len() && is_stripe(providers[k]) && (forall|i: int|
                0 <= i < k ==> !is_stripe(#[trigger] providers[i])) ==> (stripe_enabled(config)
                <==> json::flag_at(providers[k], "enabled"@) != Some(false))
        }),
{
    let providers = json::items_at(config, "providers"@);
    if forall|i: int|
        0 <= i < providers.len() ==> json::text_at(#[trigger] providers[i], "name"@) != Some(
            "stripe"@,
        ) {
        lemma_stripe_flag(providers, providers.len() as int);
    }
    if 0 <= k < providers.len() && json::text_at(providers[k], "name"@) == Some("stripe"@) && (
    forall|i: int|
        0 <= i < k ==> json::text_at(#[trigger] providers[i], "name"@) != Some("stripe"@)) {
        lemma_stripe_flag(providers, k);
    }
}

/// Providers of other names are passed over.
proof fn lemma_stripe_flag(providers: Seq<Json>, k: int)
    requires
        0 <= k <= providers.len(),
        forall|i: int|
            0 <= i < k ==> json::text_at(#[trigger] providers[i], "name"@) != Some("stripe"@),
        k < providers.len() ==> json::text_at(providers[k], "name"@) == Some("stripe"@),
    ensures
        stripe_flag(providers) == if k < providers.len() {
            json::flag_at(providers[k], "enabled"@)
        } else {
            None
        },
    decreases k,
{
    if k > 0 {
        let rest = providers.drop_first();
        assert(json::text_at(providers[0], "name"@) != Some("stripe"@));
        assert forall|i: int| 0 <= i < k - 1 implies json::text_at(#[trigger] rest[i], "name"@)
            != Some("stripe"@) by {
            assert(rest[i] == providers[i + 1]);
        }
        lemma_stripe_flag(rest, k - 1);
    }
}

/// The payouts of an order are complete exactly where there are some and all
/// were stored; they failed exactly where none was; otherwise they are partial.
pub proof fn law_status_counts_payouts(expected: nat, stored: nat)
    requires
        stored <= expected,
    ensures
        status_of(expected, stored).text() == "completed"@ <==> stored > 0 && stored == expected,
        status_of(expected, stored).text() == "failed"@ <==> stored == 0,
        status_of(expected, stored).text() == "partial"@ <==> 0 < stored < expected,
{
    reveal_strlit("completed");
    reveal_strlit("failed");
    reveal_strlit("partial");
    assert("completed"@.len() == 9 && "failed"@.len() == 6 && "partial"@.len() == 7);
}

/// Payouts come out wherever the amounts fit in `i64`: totals are refused only
/// for a delivered item whose cost, or with which its seller's total, does not.
pub proof fn law_totals_fit_means(items: Seq<Json>, item: Json)
    ensures
        totals_fit(Seq::empty()),
        totals_fit(items.push(item)) <==> totals_fit(items) && (json::text_at(item, "status"@)
            == Some("delivered"@) ==> {
            let cost = json::int_at_or(item, "priceCents"@, 0) * json::int_at_or(
                item,
                "quantity"@,
                1,
            );
            let total = seller_total(items, json::text_or_empty(item, "sellerId"@)) + cost;
            &&& -0x8000_0000_0000_0000 <= cost <= 0x7fff_ffff_ffff_ffff
            &&& -0x8000_0000_0000_0000 <= total <= 0x7fff_ffff_ffff_ffff
        }),
{
    assert(items.push(item).drop_last() =~= items);
    assert(items.push(item).last() == item);
    law_only_delivered_items_are_paid(items, item, json::text_or_empty(item, "sellerId"@));
}

/// Where the totals fit, ordinary amounts are always paid out: where each
/// seller earned no less than nothing and less than three thousand million, and
/// the fee and the subtotal lie in the same range.
pub proof fn law_ordinary_orders_are_paid(order: Json)
    requires
        totals_fit(json::items_at(order, "items"@)),
        ({
            let items = json::items_at(order, "items"@);
            forall|i: int|
                0 <= i < paid_sellers(items).len() ==> 0 <= seller_total(
                    items,
                    #[trigger] paid_sellers(items)[i],
                ) < 3_000_000_000
        }),
        0 <= json::int_at_or(order, "platformFeeCents"@, 0) < 3_000_000_000,
        json::int_at_or(order, "subtotalCents"@, 0) < 3_000_000_000,
    ensures
        payouts_fit(order),
{
    let items = json::items_at(order, "items"@);
    let fee = json::int_at_or(order, "platformFeeCents"@, 0) as int;
    let subtotal = sharing_subtotal(order) as int;
    assert forall|i: int| 0 <= i < paid_sellers(items).len() implies share_fits(
        seller_total(items, #[trigger] paid_sellers(items)[i]),
        fee,
        subtotal,
    ) by {
        let amount = seller_total(items, paid_sellers(items)[i]);
        assert(0 <= amount * fee <= 9_000_000_000_000_000_000) by (nonlinear_arith)
            requires
                0 <= amount < 3_000_000_000,
                0 <= fee < 3_000_000_000,
        ;
        let n = amount * fee + subtotal / 2;
        assert(0 <= n / subtotal <= n) by (nonlinear_arith)
            requires
                0 <= n,
                subtotal >= 1,
        ;
    }
}

} // verus!

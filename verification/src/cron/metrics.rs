//! How often the orders of a seller end in disputes, refunds and
//! cancellations, and how long they take to be delivered.
use vstd::prelude::*;

use crate::fields;
use crate::json;
use crate::json::{json_of, jsons, Json};
use crate::lists;
use crate::text;
use crate::time;
use crate::time::{quotient, read_instant, stored_instant};

verus! {

/// What is counted for a seller.
#[derive(Debug, Clone, Copy, PartialEq, Eq)]
pub struct SellerStats {
    pub total_items: u32,
    pub disputed_orders: u32,
    pub refunded_items: u32,
    pub cancelled_items: u32,
}

impl Default for SellerStats {
    fn default() -> (r: SellerStats)
        ensures
            r.total_items == 0,
            r.disputed_orders == 0,
            r.refunded_items == 0,
            r.cancelled_items == 0,
    {
        SellerStats { total_items: 0, disputed_orders: 0, refunded_items: 0, cancelled_items: 0 }
    }
}

/// An item together with the order that it belongs to.
pub struct Line {
    pub order: Json,
    pub item: Json,
}

/// The items of an order.
pub open spec fn lines_of(order: Json) -> Seq<Line> {
    let items = json::items_at(order, fields::ITEMS@);
    Seq::new(items.len(), |i: int| Line { order, item: items[i] })
}

/// The items of all orders.
pub open spec fn all_lines(orders: Seq<Json>) -> Seq<Line>
    decreases orders.len(),
{
    if orders.len() == 0 {
        Seq::empty()
    } else {
        all_lines(orders.drop_last()) + lines_of(orders.last())
    }
}

/// The seller of a line.
pub open spec fn line_seller(l: Line) -> Seq<char> {
    json::text_or_empty(l.item, fields::SELLER_ID@)
}

/// The order of the line is disputed.
pub open spec fn is_disputed(l: Line) -> bool {
    json::flag_at_or(l.order, fields::HAS_DISPUTE@, false)
}

/// The item of the line was refunded.
pub open spec fn is_refunded(l: Line) -> bool {
    json::text_at(l.item, fields::STATUS@) == Some("refunded"@)
}

/// The order of the line was cancelled.
pub open spec fn is_cancelled(l: Line) -> bool {
    json::text_at(l.order, fields::ORDER_STATUS@) == Some("cancelled"@)
}

/// How many lines of a seller have a property.
pub open spec fn count_lines(lines: Seq<Line>, seller: Seq<char>, p: spec_fn(Line) -> bool) -> nat
    decreases lines.len(),
{
    if lines.len() == 0 {
        0
    } else {
        count_lines(lines.drop_last(), seller, p) + if line_seller(lines.last()) == seller && p(
            lines.last(),
        ) {
            1nat
        } else {
            0
        }
    }
}

/// Every line counts.
pub open spec fn any_line() -> spec_fn(Line) -> bool {
    |l: Line| true
}

/// [`is_disputed`] as a function value.
pub open spec fn disputed_line() -> spec_fn(Line) -> bool {
    |l: Line| is_disputed(l)
}

/// [`is_refunded`] as a function value.
pub open spec fn refunded_line() -> spec_fn(Line) -> bool {
    |l: Line| is_refunded(l)
}

/// [`is_cancelled`] as a function value.
pub open spec fn cancelled_line() -> spec_fn(Line) -> bool {
    |l: Line| is_cancelled(l)
}

/// The counts are those of the seller's lines.
pub open spec fn counts(stats: SellerStats, lines: Seq<Line>, seller: Seq<char>) -> bool {
    &&& stats.total_items == count_lines(lines, seller, any_line())
    &&& stats.disputed_orders == count_lines(lines, seller, disputed_line())
    &&& stats.refunded_items == count_lines(lines, seller, refunded_line())
    &&& stats.cancelled_items == count_lines(lines, seller, cancelled_line())
}

/// The sellers of some lines, each once, in order of appearance; lines without
/// a seller count for nobody.
pub open spec fn line_sellers(lines: Seq<Line>) -> Seq<Seq<char>>
    decreases lines.len(),
{
    if lines.len() == 0 {
        Seq::empty()
    } else {
        let before = line_sellers(lines.drop_last());
        if line_seller(lines.last()).len() == 0 {
            before
        } else {
            lists::with_distinct(before, line_seller(lines.last()))
        }
    }
}

/// The counts of one seller.
pub struct SellerCounts {
    pub seller_id: String,
    pub stats: SellerStats,
}

/// The sellers of a list of counts.
pub open spec fn counted_sellers(v: Seq<SellerCounts>) -> Seq<Seq<char>> {
    Seq::new(v.len(), |i: int| v[i].seller_id@)
}

/// The list holds each seller of the lines with their counts.
pub open spec fn lists_counts(v: Seq<SellerCounts>, lines: Seq<Line>) -> bool {
    &&& counted_sellers(v) == line_sellers(lines)
    &&& forall|i: int|
        0 <= i < v.len() ==> counts((#[trigger] v[i]).stats, lines, v[i].seller_id@)
}

/// A count is bounded by the number of lines, and by the count of all lines.
proof fn lemma_count_bound(lines: Seq<Line>, seller: Seq<char>, p: spec_fn(Line) -> bool)
    ensures
        count_lines(lines, seller, p) <= count_lines(lines, seller, any_line()),
        count_lines(lines, seller, p) <= lines.len(),
    decreases lines.len(),
{
    if lines.len() > 0 {
        lemma_count_bound(lines.drop_last(), seller, p);
        lemma_count_bound(lines.drop_last(), seller, any_line());
    }
}

/// A seller who does not appear has nothing counted.
proof fn lemma_absent_counts(lines: Seq<Line>, seller: Seq<char>, p: spec_fn(Line) -> bool)
    requires
        seller.len() > 0,
        !line_sellers(lines).contains(seller),
    ensures
        count_lines(lines, seller, p) == 0,
    decreases lines.len(),
{
    if lines.len() > 0 {
        let before = line_sellers(lines.drop_last());
        let s0 = line_seller(lines.last());
        if s0.len() > 0 && !before.contains(s0) {
            assert(line_sellers(lines)[before.len() as int] == s0);
            if before.contains(seller) {
                let j = choose|j: int| 0 <= j < before.len() && before[j] == seller;
                assert(line_sellers(lines)[j] == seller);
            }
        }
        lemma_absent_counts(lines.drop_last(), seller, p);
    }
}

/// The sellers of some lines are distinct.
proof fn lemma_line_sellers_distinct(lines: Seq<Line>)
    ensures
        line_sellers(lines).no_duplicates(),
    decreases lines.len(),
{
    if lines.len() > 0 {
        lemma_line_sellers_distinct(lines.drop_last());
    }
}

/// Counts one more line of a seller.
fn count_line(stats: SellerStats, disputed: bool, refunded: bool, cancelled: bool) -> (r:
    SellerStats)
    requires
        stats.total_items < u32::MAX,
        stats.disputed_orders <= stats.total_items,
        stats.refunded_items <= stats.total_items,
        stats.cancelled_items <= stats.total_items,
    ensures
        r.total_items == stats.total_items + 1,
        r.disputed_orders == stats.disputed_orders + if disputed {
            1int
        } else {
            0
        },
        r.refunded_items == stats.refunded_items + if refunded {
            1int
        } else {
            0
        },
        r.cancelled_items == stats.cancelled_items + if cancelled {
            1int
        } else {
            0
        },
{
    let mut s = stats;
    s.total_items = s.total_items + 1;
    if disputed {
        s.disputed_orders = s.disputed_orders + 1;
    }
    if refunded {
        s.refunded_items = s.refunded_items + 1;
    }
    if cancelled {
        s.cancelled_items = s.cancelled_items + 1;
    }
    s
}

/// Adds a line to the counts; `false` where a count would leave `u32`.
fn add_line(
    out: &mut Vec<SellerCounts>,
    order: &serde_json::Value,
    item: &serde_json::Value,
    lines: Ghost<Seq<Line>>,
) -> (r: bool)
    requires
        lists_counts(old(out)@, lines@),
    ensures
        ({
            let line = Line { order: json_of(*order), item: json_of(*item) };
            let next = lines@.push(line);
            if r {
                lists_counts(final(out)@, next)
            } else {
                line_seller(line).len() > 0 && count_lines(next, line_seller(line), any_line())
                    > u32::MAX
            }
        }),
{
    let ghost line = Line { order: json_of(*order), item: json_of(*item) };
    let ghost next = lines@.push(line);
    let seller = json::text_field_or_empty(item, fields::SELLER_ID);
    proof {
        assert(next.drop_last() =~= lines@);
    }
    if seller.is_empty() {
        proof {
            assert forall|i: int| 0 <= i < out@.len() implies counts(
                (#[trigger] out@[i]).stats,
                next,
                out@[i].seller_id@,
            ) by {
                assert(counted_sellers(out@)[i] == out@[i].seller_id@);
                lemma_listed_not_empty(lines@, i);
            }
        }
        return true;
    }
    let disputed = json::flag_field_or(order, fields::HAS_DISPUTE, false);
    let refunded = match json::text_field(item, fields::STATUS) {
        Some(s) => text::same(s, "refunded"),
        None => false,
    };
    let cancelled = match json::text_field(order, fields::ORDER_STATUS) {
        Some(s) => text::same(s, "cancelled"),
        None => false,
    };
    let mut k: usize = 0;
    while k < out.len() && !text::same(out[k].seller_id.as_str(), seller)
        invariant
            k <= out@.len(),
            out@ == old(out)@,
            forall|j: int| 0 <= j < k ==> (#[trigger] out@[j]).seller_id@ != seller@,
        decreases out@.len() - k,
    {
        k = k + 1;
    }
    let ghost before = out@;
    proof {
        lemma_line_sellers_distinct(lines@);
        lemma_count_bound(lines@, seller@, disputed_line());
        lemma_count_bound(lines@, seller@, refunded_line());
        lemma_count_bound(lines@, seller@, cancelled_line());
    }
    if k < out.len() {
        let stats = out[k].stats;
        assert(counted_sellers(before)[k as int] == seller@);
        assert(line_sellers(lines@).contains(seller@));
        if stats.total_items == u32::MAX {
            return false;
        }
        let name = out[k].seller_id.clone();
        out.set(
            k,
            SellerCounts {
                seller_id: name,
                stats: count_line(stats, disputed, refunded, cancelled),
            },
        );
        proof {
            assert(counted_sellers(out@) =~= counted_sellers(before));
            assert forall|i: int| 0 <= i < out@.len() implies counts(
                (#[trigger] out@[i]).stats,
                next,
                out@[i].seller_id@,
            ) by {
                if i != k {
                    assert(out@[i] == before[i]);
                    assert(counted_sellers(before)[i] != counted_sellers(before)[k as int]);
                }
            }
        }
        true
    } else {
        proof {
            if line_sellers(lines@).contains(seller@) {
                let j = choose|j: int|
                    0 <= j < line_sellers(lines@).len() && line_sellers(lines@)[j] == seller@;
                assert(counted_sellers(before)[j] == before[j].seller_id@);
            }
            lemma_absent_counts(lines@, seller@, any_line());
            lemma_absent_counts(lines@, seller@, disputed_line());
            lemma_absent_counts(lines@, seller@, refunded_line());
            lemma_absent_counts(lines@, seller@, cancelled_line());
        }
        let none: SellerStats = Default::default();
        out.push(
            SellerCounts {
                seller_id: seller.to_owned(),
                stats: count_line(none, disputed, refunded, cancelled),
            },
        );
        proof {
            assert(counted_sellers(out@) =~= counted_sellers(before).push(seller@));
            assert forall|i: int| 0 <= i < out@.len() implies counts(
                (#[trigger] out@[i]).stats,
                next,
                out@[i].seller_id@,
            ) by {
                if i < before.len() {
                    assert(out@[i] == before[i]);
                }
            }
        }
        true
    }
}

/// A listed seller has a name.
proof fn lemma_listed_not_empty(lines: Seq<Line>, i: int)
    requires
        0 <= i < line_sellers(lines).len(),
    ensures
        line_sellers(lines)[i].len() > 0,
    decreases lines.len(),
{
    let before = line_sellers(lines.drop_last());
    if i < before.len() {
        lemma_listed_not_empty(lines.drop_last(), i);
    }
}

/// No count over the orders leaves `u32`.
pub open spec fn counts_fit(orders: Seq<Json>) -> bool {
    forall|s: Seq<char>|
        s.len() > 0 ==> #[trigger] count_lines(all_lines(orders), s, any_line()) <= u32::MAX
}

proof fn lemma_count_concat(a: Seq<Line>, b: Seq<Line>, seller: Seq<char>)
    ensures
        count_lines(a + b, seller, any_line()) >= count_lines(a, seller, any_line()),
    decreases b.len(),
{
    if b.len() == 0 {
        assert(a + b =~= a);
    } else {
        assert((a + b).drop_last() =~= a + b.drop_last());
        lemma_count_concat(a, b.drop_last(), seller);
    }
}

/// A prefix of the orders has a prefix of the lines.
proof fn lemma_lines_prefix(orders: Seq<Json>, k: int) -> (rest: Seq<Line>)
    requires
        0 <= k <= orders.len(),
    ensures
        all_lines(orders) == all_lines(orders.take(k)) + rest,
    decreases orders.len() - k,
{
    if k == orders.len() {
        assert(orders.take(k) =~= orders);
        assert(all_lines(orders) =~= all_lines(orders.take(k)) + Seq::<Line>::empty());
        Seq::empty()
    } else {
        let r = lemma_lines_prefix(orders, k + 1);
        assert(orders.take(k + 1).drop_last() =~= orders.take(k));
        assert(all_lines(orders) =~= all_lines(orders.take(k)) + (lines_of(orders[k]) + r));
        lines_of(orders[k]) + r
    }
}

/// What the orders count up to for each seller; nothing where a count leaves
/// `u32`.
pub fn seller_counts(orders: &Vec<serde_json::Value>) -> (r: Option<Vec<SellerCounts>>)
    ensures
        match r {
            Some(v) => counts_fit(jsons(orders@)) && lists_counts(v@, all_lines(jsons(orders@))),
            None => !counts_fit(jsons(orders@)),
        },
{
    let ghost all = jsons(orders@);
    let mut out: Vec<SellerCounts> = Vec::new();
    assert(counted_sellers(out@) =~= line_sellers(all_lines(all.take(0))));
    let mut o: usize = 0;
    while o < orders.len()
        invariant
            o <= orders@.len(),
            all == jsons(orders@),
            lists_counts(out@, all_lines(all.take(o as int))),
        decreases orders@.len() - o,
    {
        let order = &orders[o];
        let ghost base = all_lines(all.take(o as int));
        let ghost mine = lines_of(json_of(*order));
        if let Some(items) = json::list_field(order, fields::ITEMS) {
            let mut i: usize = 0;
            assert(base + mine.take(0) =~= base);
            while i < items.len()
                invariant
                    i <= items@.len(),
                    o < orders@.len(),
                    all == jsons(orders@),
                    json_of(*order) == all[o as int],
                    base == all_lines(all.take(o as int)),
                    mine == lines_of(json_of(*order)),
                    json::list_at(json_of(*order), fields::ITEMS@) == Some(jsons(items@)),
                    lists_counts(out@, base + mine.take(i as int)),
                decreases items@.len() - i,
            {
                let item = &items[i];
                let ghost done = base + mine.take(i as int);
                let ghost line = Line { order: json_of(*order), item: json_of(*item) };
                proof {
                    assert(mine[i as int] == line);
                    assert(base + mine.take(i + 1) =~= done.push(line));
                }
                if !add_line(&mut out, order, item, Ghost(done)) {
                    proof {
                        let s = line_seller(line);
                        lemma_count_concat(done.push(line), mine.skip(i + 1), s);
                        assert(done.push(line) + mine.skip(i + 1) =~= base + mine);
                        assert(all.take(o + 1).drop_last() =~= all.take(o as int));
                        assert(all_lines(all.take(o + 1)) == base + mine);
                        let rest = lemma_lines_prefix(all, o + 1);
                        lemma_count_concat(base + mine, rest, s);
                    }
                    return None;
                }
                i = i + 1;
            }
            assert(mine.take(i as int) =~= mine);
        } else {
            assert(mine =~= Seq::<Line>::empty());
            assert(base + mine =~= base);
        }
        assert(all.take(o + 1).drop_last() =~= all.take(o as int));
        o = o + 1;
    }
    assert(all.take(o as int) =~= all);
    proof {
        let lines = all_lines(all);
        assert forall|s: Seq<char>| s.len() > 0 implies #[trigger] count_lines(
            lines,
            s,
            any_line(),
        ) <= u32::MAX by {
            if line_sellers(lines).contains(s) {
                let i = choose|i: int|
                    0 <= i < line_sellers(lines).len() && line_sellers(lines)[i] == s;
                assert(counted_sellers(out@)[i] == out@[i].seller_id@);
            } else {
                lemma_absent_counts(lines, s, any_line());
            }
        }
    }
    Some(out)
}

// ------------------------------------------------------------------- breaches

/// A rate that is higher than it may be.
#[derive(Debug, Clone, Copy, PartialEq, Eq)]
pub enum Breach {
    /// More than 5 % of the items belong to disputed orders.
    Disputes,
    /// More than 10 % of the items were refunded.
    Refunds,
    /// More than 15 % of the items belong to cancelled orders.
    Cancellations,
}

/// `part` is more than `percent` per cent of `total`.
pub open spec fn exceeds(part: u32, total: u32, percent: int) -> bool {
    total > 0 && part * 100 > total * percent
}

/// The rates that are higher than they may be.
pub open spec fn breach_list(stats: SellerStats) -> Seq<Breach> {
    let a = if exceeds(stats.disputed_orders, stats.total_items, 5) {
        seq![Breach::Disputes]
    } else {
        Seq::empty()
    };
    let b = if exceeds(stats.refunded_items, stats.total_items, 10) {
        seq![Breach::Refunds]
    } else {
        Seq::empty()
    };
    let c = if exceeds(stats.cancelled_items, stats.total_items, 15) {
        seq![Breach::Cancellations]
    } else {
        Seq::empty()
    };
    a + b + c
}

/// Whether `part` is more than `percent` per cent of `total`.
fn is_over(part: u32, total: u32, percent: u32) -> (r: bool)
    requires
        percent <= 100,
    ensures
        r == exceeds(part, total, percent as int),
{
    assert(total * percent <= total * 100) by (nonlinear_arith)
        requires
            0 <= percent <= 100,
            0 <= total,
    ;
    total > 0 && part as u64 * 100 > total as u64 * percent as u64
}

/// The rates that are higher than they may be.
pub fn breaches(stats: SellerStats) -> (r: Vec<Breach>)
    ensures
        r@ == breach_list(stats),
{
    let mut out: Vec<Breach> = Vec::new();
    if is_over(stats.disputed_orders, stats.total_items, 5) {
        out.push(Breach::Disputes);
    }
    if is_over(stats.refunded_items, stats.total_items, 10) {
        out.push(Breach::Refunds);
    }
    if is_over(stats.cancelled_items, stats.total_items, 15) {
        out.push(Breach::Cancellations);
    }
    assert(out@ =~= breach_list(stats));
    out
}

// ------------------------------------------------------------- delivery times

/// The order holds an item of the seller.
pub open spec fn sold_by(order: Json, seller: Seq<char>) -> bool {
    exists|i: int|
        0 <= i < lines_of(order).len() && line_seller(#[trigger] lines_of(order)[i]) == seller
}

/// The seconds from the making of an order to its delivery, where it says when
/// both were.
pub open spec fn delivery_seconds(order: Json) -> Option<int> {
    match (
        stored_instant(order, fields::CREATED_AT@),
        stored_instant(order, fields::DELIVERED_AT@),
    ) {
        (Some(made), Some(delivered)) => Some(time::seconds_between(delivered, made)),
        _ => None,
    }
}

/// The order counts in the seller's average delivery time.
pub open spec fn is_timed(order: Json, seller: Seq<char>) -> bool {
    sold_by(order, seller) && delivery_seconds(order) is Some
}

/// How many orders count in the seller's average delivery time.
pub open spec fn timed_orders(orders: Seq<Json>, seller: Seq<char>) -> nat
    decreases orders.len(),
{
    if orders.len() == 0 {
        0
    } else {
        timed_orders(orders.drop_last(), seller) + if is_timed(orders.last(), seller) {
            1nat
        } else {
            0
        }
    }
}

/// The seconds that the deliveries of these orders took together.
pub open spec fn total_delivery_seconds(orders: Seq<Json>, seller: Seq<char>) -> int
    decreases orders.len(),
{
    if orders.len() == 0 {
        0
    } else {
        total_delivery_seconds(orders.drop_last(), seller) + if is_timed(orders.last(), seller) {
            delivery_seconds(orders.last())->0
        } else {
            0
        }
    }
}

/// Whether an order holds an item of the seller.
fn is_sold_by(order: &serde_json::Value, seller: &str) -> (r: bool)
    ensures
        r == sold_by(json_of(*order), seller@),
{
    let ghost lines = lines_of(json_of(*order));
    if let Some(items) = json::list_field(order, fields::ITEMS) {
        let mut i: usize = 0;
        while i < items.len()
            invariant
                i <= items@.len(),
                lines == lines_of(json_of(*order)),
                json::list_at(json_of(*order), fields::ITEMS@) == Some(jsons(items@)),
                forall|j: int| 0 <= j < i ==> line_seller(#[trigger] lines[j]) != seller@,
            decreases items@.len() - i,
        {
            assert(lines[i as int].item == json_of(items@[i as int]));
            if text::same(json::text_field_or_empty(&items[i], fields::SELLER_ID), seller) {
                assert(line_seller(lines[i as int]) == seller@);
                return true;
            }
            i = i + 1;
        }
    }
    false
}

/// The seconds from the making of an order to its delivery.
fn seconds_to_delivery(order: &serde_json::Value) -> (r: Option<i64>)
    ensures
        match r {
            Some(n) => delivery_seconds(json_of(*order)) == Some(n as int),
            None => delivery_seconds(json_of(*order)) is None,
        },
        r matches Some(n) ==> -20_000_000_000_000 <= n <= 20_000_000_000_000,
{
    let made = read_instant(order, fields::CREATED_AT)?;
    let delivered = read_instant(order, fields::DELIVERED_AT)?;
    Some(time::elapsed_seconds(delivered, made))
}

/// The average time in whole hours that the orders of a seller took from being
/// made to being delivered, its fraction dropped; nothing where no order of
/// theirs says when both were.
pub fn average_delivery_hours(orders: &Vec<serde_json::Value>, seller: &str) -> (r: Option<i64>)
    ensures
        match r {
            Some(h) => timed_orders(jsons(orders@), seller@) > 0 && h == quotient(
                total_delivery_seconds(jsons(orders@), seller@),
                3_600 * timed_orders(jsons(orders@), seller@) as int,
            ),
            None => timed_orders(jsons(orders@), seller@) == 0,
        },
{
    let ghost all = jsons(orders@);
    let mut total: i128 = 0;
    let mut count: i128 = 0;
    let mut i: usize = 0;
    assert(all.take(0) =~= Seq::<Json>::empty());
    while i < orders.len()
        invariant
            i <= orders@.len(),
            all == jsons(orders@),
            0 <= count <= i,
            count == timed_orders(all.take(i as int), seller@),
            total == total_delivery_seconds(all.take(i as int), seller@),
            -20_000_000_000_000 * count <= total <= 20_000_000_000_000 * count,
        decreases orders@.len() - i,
    {
        proof {
            assert(all.take(i + 1).drop_last() =~= all.take(i as int));
            assert(all.take(i + 1).last() == json_of(orders@[i as int]));
        }
        if is_sold_by(&orders[i], seller) {
            if let Some(n) = seconds_to_delivery(&orders[i]) {
                total = total + n as i128;
                count = count + 1;
            }
        }
        i = i + 1;
    }
    assert(all.take(i as int) =~= all);
    if count == 0 {
        return None;
    }
    let hours: i128 = total / (3_600 * count);
    proof {
        lemma_quotient_bound(total as int, 3_600 * count as int, 20_000_000_000_000);
    }
    Some(hours as i64)
}

proof fn lemma_quotient_bound(n: int, d: int, bound: int)
    requires
        d > 0,
        bound >= 0,
        -bound * d <= n <= bound * d,
    ensures
        -bound <= quotient(n, d) <= bound,
{
    if n >= 0 {
        assert(0 <= n / d <= bound) by (nonlinear_arith)
            requires
                0 <= n <= bound * d,
                d > 0,
        ;
    } else {
        let m = -n;
        assert(-bound * d == -(bound * d)) by (nonlinear_arith);
        assert(0 <= m / d <= bound) by (nonlinear_arith)
            requires
                0 <= m <= bound * d,
                d > 0,
        ;
    }
}

/// No rate is over a hundred per cent, and every seller who is listed has an
/// item.
pub proof fn law_counts_within_total(lines: Seq<Line>, v: Seq<SellerCounts>, i: int)
    requires
        lists_counts(v, lines),
        0 <= i < v.len(),
    ensures
        v[i].stats.disputed_orders <= v[i].stats.total_items,
        v[i].stats.refunded_items <= v[i].stats.total_items,
        v[i].stats.cancelled_items <= v[i].stats.total_items,
        v[i].stats.total_items > 0,
{
    let s = v[i].seller_id@;
    lemma_count_bound(lines, s, disputed_line());
    lemma_count_bound(lines, s, refunded_line());
    lemma_count_bound(lines, s, cancelled_line());
    assert(counted_sellers(v)[i] == s);
    lemma_listed_has_line(lines, i);
}

/// A listed seller has a line.
proof fn lemma_listed_has_line(lines: Seq<Line>, i: int)
    requires
        0 <= i < line_sellers(lines).len(),
    ensures
        count_lines(lines, line_sellers(lines)[i], any_line()) > 0,
    decreases lines.len(),
{
    let before = line_sellers(lines.drop_last());
    if i < before.len() {
        lemma_listed_has_line(lines.drop_last(), i);
    }
}

/// A line counts once for its seller, and for nobody else: as disputed where
/// its order says that it has a dispute, as refunded where its item says so,
/// as cancelled where its order says so.
pub proof fn law_line_counts_for_its_seller(lines: Seq<Line>, l: Line, seller: Seq<char>)
    ensures
        ({
            let mine = json::text_or_empty(l.item, "sellerId"@) == seller;
            let one = |b: bool|
                if b {
                    1nat
                } else {
                    0nat
                };
            &&& count_lines(lines.push(l), seller, any_line()) == count_lines(
                lines,
                seller,
                any_line(),
            ) + one(mine)
            &&& count_lines(lines.push(l), seller, disputed_line()) == count_lines(
                lines,
                seller,
                disputed_line(),
            ) + one(mine && json::flag_at(l.order, "hasDispute"@) == Some(true))
            &&& count_lines(lines.push(l), seller, refunded_line()) == count_lines(
                lines,
                seller,
                refunded_line(),
            ) + one(mine && json::text_at(l.item, "status"@) == Some("refunded"@))
            &&& count_lines(lines.push(l), seller, cancelled_line()) == count_lines(
                lines,
                seller,
                cancelled_line(),
            ) + one(mine && json::text_at(l.order, "orderStatus"@) == Some("cancelled"@))
        }),
        count_lines(Seq::empty(), seller, any_line()) == 0,
        count_lines(Seq::empty(), seller, disputed_line()) == 0,
        count_lines(Seq::empty(), seller, refunded_line()) == 0,
        count_lines(Seq::empty(), seller, cancelled_line()) == 0,
{
    assert(lines.push(l).drop_last() =~= lines);
    assert(lines.push(l).last() == l);
}

/// The lines of orders are their items, each with its order, in order.
pub proof fn law_lines_are_the_items(orders: Seq<Json>, order: Json, i: int)
    ensures
        all_lines(orders.push(order)) == all_lines(orders) + lines_of(order),
        all_lines(Seq::empty()).len() == 0,
        lines_of(order).len() == json::items_at(order, "items"@).len(),
        0 <= i < lines_of(order).len() ==> lines_of(order)[i].order == order && lines_of(
            order,
        )[i].item == json::items_at(order, "items"@)[i],
{
    assert(orders.push(order).drop_last() =~= orders);
}

/// A seller is measured exactly where a line names them, and once.
pub proof fn law_measured_sellers(lines: Seq<Line>)
    ensures
        line_sellers(lines).no_duplicates(),
        forall|s: Seq<char>| #[trigger]
            line_sellers(lines).contains(s) <==> s.len() > 0 && exists|i: int|
                0 <= i < lines.len() && json::text_or_empty(
                    (#[trigger] lines[i]).item,
                    "sellerId"@,
                ) == s,
    decreases lines.len(),
{
    lemma_line_sellers_distinct(lines);
    if lines.len() > 0 {
        let init = lines.drop_last();
        let before = line_sellers(init);
        let now = line_sellers(lines);
        let s0 = json::text_or_empty(lines.last().item, "sellerId"@);
        law_measured_sellers(init);
        assert forall|s: Seq<char>| #[trigger] now.contains(s) <==> s.len() > 0 && exists|i: int|
            0 <= i < lines.len() && json::text_or_empty((#[trigger] lines[i]).item, "sellerId"@)
                == s by {
            if before.contains(s) {
                let i = choose|i: int|
                    0 <= i < init.len() && json::text_or_empty(
                        (#[trigger] init[i]).item,
                        "sellerId"@,
                    ) == s;
                assert(lines[i] == init[i]);
                let j = choose|j: int| 0 <= j < before.len() && before[j] == s;
                assert(now[j] == s);
            }
            if now.contains(s) && !before.contains(s) {
                assert(s == s0);
                assert(json::text_or_empty(lines[lines.len() - 1].item, "sellerId"@) == s);
            }
            if s.len() > 0 && exists|i: int|
                0 <= i < lines.len() && json::text_or_empty((#[trigger] lines[i]).item, "sellerId"@)
                    == s {
                let i = choose|i: int|
                    0 <= i < lines.len() && json::text_or_empty(
                        (#[trigger] lines[i]).item,
                        "sellerId"@,
                    ) == s;
                if i < init.len() {
                    assert(init[i] == lines[i]);
                } else if !before.contains(s0) {
                    assert(now[before.len() as int] == s0);
                }
            }
        }
    }
}

/// A seller breaches a limit exactly where more than 5 % of their items are
/// disputed, more than 10 % refunded, or more than 15 % cancelled.
pub proof fn law_breaches_by_rate(stats: SellerStats)
    ensures
        breach_list(stats).contains(Breach::Disputes) <==> stats.total_items > 0 && 20
            * stats.disputed_orders > stats.total_items,
        breach_list(stats).contains(Breach::Refunds) <==> stats.total_items > 0 && 10
            * stats.refunded_items > stats.total_items,
        breach_list(stats).contains(Breach::Cancellations) <==> stats.total_items > 0 && 20
            * stats.cancelled_items > 3 * stats.total_items,
        breach_list(stats).no_duplicates(),
{
    let d = exceeds(stats.disputed_orders, stats.total_items, 5);
    let r = exceeds(stats.refunded_items, stats.total_items, 10);
    let c = exceeds(stats.cancelled_items, stats.total_items, 15);
    let list = breach_list(stats);
    if d {
        assert(list[0] == Breach::Disputes);
    }
    if r {
        assert(list[if d { 1int } else { 0 }] == Breach::Refunds);
    }
    if c {
        assert(list[list.len() - 1] == Breach::Cancellations);
    }
}

/// An order counts in a seller's average where it holds an item of theirs and
/// says when it was made and delivered, with the seconds between the two.
pub proof fn law_timed_orders_add_up(orders: Seq<Json>, order: Json, seller: Seq<char>)
    ensures
        ({
            let made = stored_instant(order, "createdAt"@);
            let delivered = stored_instant(order, "deliveredAt"@);
            let timed = made is Some && delivered is Some && exists|i: int|
                0 <= i < json::items_at(order, "items"@).len() && json::text_or_empty(
                    #[trigger] json::items_at(order, "items"@)[i],
                    "sellerId"@,
                ) == seller;
            &&& timed ==> timed_orders(orders.push(order), seller) == timed_orders(orders, seller)
                + 1 && total_delivery_seconds(orders.push(order), seller)
                == total_delivery_seconds(orders, seller) + time::seconds_between(
                delivered->0,
                made->0,
            )
            &&& !timed ==> timed_orders(orders.push(order), seller) == timed_orders(orders, seller)
                && total_delivery_seconds(orders.push(order), seller) == total_delivery_seconds(
                orders,
                seller,
            )
        }),
        timed_orders(Seq::empty(), seller) == 0,
        total_delivery_seconds(Seq::empty(), seller) == 0,
{
    assert(orders.push(order).drop_last() =~= orders);
    assert(orders.push(order).last() == order);
    let items = json::items_at(order, "items"@);
    if sold_by(order, seller) {
        let i = choose|i: int|
            0 <= i < lines_of(order).len() && line_seller(#[trigger] lines_of(order)[i]) == seller;
        assert(json::text_or_empty(json::items_at(order, "items"@)[i], "sellerId"@) == seller);
    }
    if exists|i: int|
        0 <= i < json::items_at(order, "items"@).len() && json::text_or_empty(
            #[trigger] json::items_at(order, "items"@)[i],
            "sellerId"@,
        ) == seller {
        let i = choose|i: int|
            0 <= i < json::items_at(order, "items"@).len() && json::text_or_empty(
                #[trigger] json::items_at(order, "items"@)[i],
                "sellerId"@,
            ) == seller;
        assert(line_seller(lines_of(order)[i]) == seller);
    }
}

/// The list holds the sellers of the lines in order, each with how many lines
/// are theirs, and how many of these are disputed, refunded and cancelled.
pub proof fn law_counts_are_listed(v: Seq<SellerCounts>, lines: Seq<Line>, i: int)
    requires
        lists_counts(v, lines),
        0 <= i < v.len(),
    ensures
        v.len() == line_sellers(lines).len(),
        v[i].seller_id@ == line_sellers(lines)[i],
        v[i].stats.total_items == count_lines(lines, v[i].seller_id@, any_line()),
        v[i].stats.disputed_orders == count_lines(lines, v[i].seller_id@, disputed_line()),
        v[i].stats.refunded_items == count_lines(lines, v[i].seller_id@, refunded_line()),
        v[i].stats.cancelled_items == count_lines(lines, v[i].seller_id@, cancelled_line()),
{
    assert(counted_sellers(v)[i] == v[i].seller_id@);
    assert(counted_sellers(v).len() == v.len());
}

/// Sellers are measured wherever there are no more lines than `u32` counts.
pub proof fn law_metrics_come_out(orders: Seq<Json>)
    requires
        all_lines(orders).len() <= 0xffff_ffff,
    ensures
        counts_fit(orders),
{
    assert forall|s: Seq<char>| s.len() > 0 implies #[trigger] count_lines(
        all_lines(orders),
        s,
        any_line(),
    ) <= u32::MAX by {
        lemma_count_bound(all_lines(orders), s, any_line());
    }
}

} // verus!

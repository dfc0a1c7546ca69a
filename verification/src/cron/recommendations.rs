//! Products that are bought together.
use vstd::prelude::*;

use crate::fields;
use crate::json;
use crate::json::{json_of, jsons, Json};
use crate::lists;
use crate::lists::{falls, first_n, ranked, scores, texts, Scored};
use crate::text;

verus! {

/// The most recommendations that a product gets.
pub const MAX_RECOMMENDATIONS: usize = 10;

// ------------------------------------------------------------------- counting

/// The products of the items, those that name none left out.
pub open spec fn product_ids(items: Seq<Json>) -> Seq<Seq<char>>
    decreases items.len(),
{
    if items.len() == 0 {
        Seq::empty()
    } else {
        let before = product_ids(items.drop_last());
        match json::text_at(items.last(), fields::PRODUCT_ID@) {
            Some(id) => before.push(id),
            None => before,
        }
    }
}

/// The products of an order.
pub open spec fn bought(order: Json) -> Seq<Seq<char>> {
    product_ids(json::items_at(order, fields::ITEMS@))
}

/// How often `a` stands in `ids`.
pub open spec fn occurrences(ids: Seq<Seq<char>>, a: Seq<char>) -> nat
    decreases ids.len(),
{
    if ids.len() == 0 {
        0
    } else {
        occurrences(ids.drop_last(), a) + if ids.last() == a {
            1nat
        } else {
            0
        }
    }
}

/// How many pairs of two places in `ids` there are of which the first holds
/// `a` and the second holds `b`, in either order of the places.
pub open spec fn pairs(ids: Seq<Seq<char>>, a: Seq<char>, b: Seq<char>) -> nat
    decreases ids.len(),
{
    if ids.len() == 0 {
        0
    } else {
        let init = ids.drop_last();
        pairs(init, a, b) + (if ids.last() == b {
            occurrences(init, a)
        } else {
            0
        }) + (if ids.last() == a {
            occurrences(init, b)
        } else {
            0
        })
    }
}

/// How often `a` was bought together with `b`.
pub open spec fn together(orders: Seq<Json>, a: Seq<char>, b: Seq<char>) -> nat
    decreases orders.len(),
{
    if orders.len() == 0 {
        0
    } else {
        together(orders.drop_last(), a, b) + pairs(bought(orders.last()), a, b)
    }
}

/// `a` was bought with `b` as often as `b` with `a`.
pub proof fn law_together_is_symmetric(orders: Seq<Json>, a: Seq<char>, b: Seq<char>)
    ensures
        together(orders, a, b) == together(orders, b, a),
    decreases orders.len(),
{
    if orders.len() > 0 {
        law_together_is_symmetric(orders.drop_last(), a, b);
        lemma_pairs_symmetric(bought(orders.last()), a, b);
    }
}

proof fn lemma_pairs_symmetric(ids: Seq<Seq<char>>, a: Seq<char>, b: Seq<char>)
    ensures
        pairs(ids, a, b) == pairs(ids, b, a),
    decreases ids.len(),
{
    if ids.len() > 0 {
        lemma_pairs_symmetric(ids.drop_last(), a, b);
    }
}

// ------------------------------------------------------------------ the table

/// What was bought with one product.
pub struct CoPurchases {
    pub product_id: String,
    pub partners: Vec<Scored>,
}

/// The score of `b` in a row.
pub open spec fn cell(row: Seq<Scored>, b: Seq<char>) -> int
    decreases row.len(),
{
    if row.len() == 0 {
        0
    } else {
        cell(row.drop_last(), b) + if row.last().id@ == b {
            row.last().score as int
        } else {
            0
        }
    }
}

/// Each product stands in a row once, with a score.
pub open spec fn row_ok(row: Seq<Scored>) -> bool {
    &&& forall|i: int, j: int|
        0 <= i < j < row.len() ==> (#[trigger] row[i]).id@ != (#[trigger] row[j]).id@
    &&& forall|i: int| 0 <= i < row.len() ==> 0 < (#[trigger] row[i]).score <= u32::MAX
}

/// The score of `b` with `a` in a table.
pub open spec fn entry(table: Seq<CoPurchases>, a: Seq<char>, b: Seq<char>) -> int
    decreases table.len(),
{
    if table.len() == 0 {
        0
    } else {
        entry(table.drop_last(), a, b) + if table.last().product_id@ == a {
            cell(table.last().partners@, b)
        } else {
            0
        }
    }
}

/// Each product has one row, and no row is empty.
pub open spec fn table_ok(table: Seq<CoPurchases>) -> bool {
    &&& forall|i: int, j: int|
        0 <= i < j < table.len() ==> (#[trigger] table[i]).product_id@ != (
        #[trigger] table[j]).product_id@
    &&& forall|i: int|
        0 <= i < table.len() ==> row_ok((#[trigger] table[i]).partners@) && table[i].partners@.len()
            > 0
}

proof fn lemma_cell_update(row: Seq<Scored>, k: int, x: Scored, b: Seq<char>)
    requires
        0 <= k < row.len(),
        x.id@ == row[k].id@,
    ensures
        cell(row.update(k, x), b) == cell(row, b) + if x.id@ == b {
            x.score - row[k].score
        } else {
            0
        },
    decreases row.len(),
{
    let init = row.drop_last();
    if k == row.len() - 1 {
        assert(row.update(k, x).drop_last() =~= init);
    } else {
        assert(row.update(k, x).drop_last() =~= init.update(k, x));
        lemma_cell_update(init, k, x, b);
    }
}

proof fn lemma_cell_nonneg(row: Seq<Scored>, b: Seq<char>)
    ensures
        cell(row, b) >= 0,
    decreases row.len(),
{
    if row.len() > 0 {
        lemma_cell_nonneg(row.drop_last(), b);
    }
}

/// In a row without repetitions a cell is the score of the product there.
proof fn lemma_cell_is_score(row: Seq<Scored>, i: int)
    requires
        row_ok(row),
        0 <= i < row.len(),
    ensures
        cell(row, row[i].id@) == row[i].score,
    decreases row.len(),
{
    let init = row.drop_last();
    let b = row[i].id@;
    if i == row.len() - 1 {
        assert forall|j: int| 0 <= j < init.len() implies (#[trigger] init[j]).id@ != b by {
            assert(row[j].id@ != row[i].id@);
        }
        lemma_cell_absent(init, b);
    } else {
        assert(row_ok(init));
        lemma_cell_is_score(init, i);
        assert(row[row.len() - 1].id@ != b);
    }
}

/// A product that does not stand in a row has no score there.
proof fn lemma_cell_absent(row: Seq<Scored>, b: Seq<char>)
    requires
        forall|j: int| 0 <= j < row.len() ==> (#[trigger] row[j]).id@ != b,
    ensures
        cell(row, b) == 0,
    decreases row.len(),
{
    if row.len() > 0 {
        let init = row.drop_last();
        assert forall|j: int| 0 <= j < init.len() implies (#[trigger] init[j]).id@ != b by {
            assert(row[j].id@ != b);
        }
        lemma_cell_absent(init, b);
        assert(row[row.len() - 1].id@ != b);
    }
}

/// Counts one more purchase of `b` in a row; `false` where the score would
/// leave `u32`.
fn add_to_row(row: &mut Vec<Scored>, b: &str) -> (r: bool)
    requires
        row_ok(old(row)@),
    ensures
        r ==> row_ok(final(row)@) && final(row)@.len() > 0,
        r ==> forall|y: Seq<char>| #[trigger]
            cell(final(row)@, y) == cell(old(row)@, y) + if y == b@ {
                1int
            } else {
                0
            },
        !r ==> cell(old(row)@, b@) + 1 > u32::MAX,
{
    let ghost before = row@;
    let mut k: usize = 0;
    while k < row.len() && !text::same(row[k].id.as_str(), b)
        invariant
            k <= row@.len(),
            row@ == before,
            forall|j: int| 0 <= j < k ==> (#[trigger] row@[j]).id@ != b@,
        decreases row@.len() - k,
    {
        k = k + 1;
    }
    if k < row.len() {
        let score: u64 = row[k].score;
        if score >= u32::MAX as u64 {
            proof {
                lemma_cell_is_score(before, k as int);
            }
            return false;
        }
        let id = row[k].id.clone();
        let ghost x = Scored { score: (score + 1) as u64, id };
        row.set(k, Scored { score: score + 1, id });
        proof {
            assert(row@ =~= before.update(k as int, x));
            assert forall|y: Seq<char>| #[trigger] cell(row@, y) == cell(before, y) + if y == b@ {
                1int
            } else {
                0
            } by {
                lemma_cell_update(before, k as int, x, y);
            }
            assert forall|i: int, j: int| 0 <= i < j < row@.len() implies (
            #[trigger] row@[i]).id@ != (#[trigger] row@[j]).id@ by {
                assert(before[i].id@ != before[j].id@);
            }
            assert forall|i: int| 0 <= i < row@.len() implies 0 < (#[trigger] row@[i]).score
                <= u32::MAX by {
                if i != k {
                    assert(row@[i] == before[i]);
                }
            }
        }
    } else {
        row.push(Scored { score: 1, id: b.to_owned() });
        proof {
            assert(row@.drop_last() =~= before);
            assert forall|i: int, j: int| 0 <= i < j < row@.len() implies (
            #[trigger] row@[i]).id@ != (#[trigger] row@[j]).id@ by {
                assert(row@[i] == before[i]);
                if j < before.len() {
                    assert(row@[j] == before[j]);
                }
            }
            assert forall|i: int| 0 <= i < row@.len() implies 0 < (#[trigger] row@[i]).score
                <= u32::MAX by {
                if i < before.len() {
                    assert(row@[i] == before[i]);
                }
            }
        }
    }
    true
}

proof fn lemma_entry_update(
    table: Seq<CoPurchases>,
    k: int,
    x: CoPurchases,
    a: Seq<char>,
    b: Seq<char>,
)
    requires
        0 <= k < table.len(),
        x.product_id@ == table[k].product_id@,
    ensures
        entry(table.update(k, x), a, b) == entry(table, a, b) + if x.product_id@ == a {
            cell(x.partners@, b) - cell(table[k].partners@, b)
        } else {
            0
        },
    decreases table.len(),
{
    let init = table.drop_last();
    if k == table.len() - 1 {
        assert(table.update(k, x).drop_last() =~= init);
    } else {
        assert(table.update(k, x).drop_last() =~= init.update(k, x));
        lemma_entry_update(init, k, x, a, b);
    }
}

/// Rows of other products add nothing.
proof fn lemma_entry_absent(table: Seq<CoPurchases>, a: Seq<char>, b: Seq<char>)
    requires
        forall|j: int| 0 <= j < table.len() ==> (#[trigger] table[j]).product_id@ != a,
    ensures
        entry(table, a, b) == 0,
    decreases table.len(),
{
    if table.len() > 0 {
        let init = table.drop_last();
        assert forall|j: int| 0 <= j < init.len() implies (#[trigger] init[j]).product_id@ != a by {
            assert(table[j].product_id@ != a);
        }
        lemma_entry_absent(init, a, b);
        assert(table[table.len() - 1].product_id@ != a);
    }
}

/// In a table without repetitions an entry is the cell of the product's row.
proof fn lemma_entry_is_cell(table: Seq<CoPurchases>, i: int, b: Seq<char>)
    requires
        table_ok(table),
        0 <= i < table.len(),
    ensures
        entry(table, table[i].product_id@, b) == cell(table[i].partners@, b),
    decreases table.len(),
{
    let init = table.drop_last();
    let a = table[i].product_id@;
    if i == table.len() - 1 {
        assert forall|j: int| 0 <= j < init.len() implies (#[trigger] init[j]).product_id@ != a by {
            assert(table[j].product_id@ != table[i].product_id@);
        }
        lemma_entry_absent(init, a, b);
    } else {
        assert(table_ok(init)) by {
            assert forall|p: int| 0 <= p < init.len() implies row_ok(
                (#[trigger] init[p]).partners@,
            ) && init[p].partners@.len() > 0 by {
                assert(init[p] == table[p]);
            }
        }
        lemma_entry_is_cell(init, i, b);
        assert(table[table.len() - 1].product_id@ != a);
    }
}

/// Counts one more purchase of `b` with `a`; `false` where the score would
/// leave `u32`.
fn add_to_table(table: &mut Vec<CoPurchases>, a: &str, b: &str) -> (r: bool)
    requires
        table_ok(old(table)@),
    ensures
        r ==> table_ok(final(table)@),
        r ==> forall|x: Seq<char>, y: Seq<char>| #[trigger]
            entry(final(table)@, x, y) == entry(old(table)@, x, y) + if x == a@ && y == b@ {
                1int
            } else {
                0
            },
        !r ==> entry(old(table)@, a@, b@) + 1 > u32::MAX,
{
    let ghost before = table@;
    let mut k: usize = 0;
    while k < table.len() && !text::same(table[k].product_id.as_str(), a)
        invariant
            k <= table@.len(),
            table@ == before,
            forall|j: int| 0 <= j < k ==> (#[trigger] table@[j]).product_id@ != a@,
        decreases table@.len() - k,
    {
        k = k + 1;
    }
    if k < table.len() {
        let old_row = table.remove(k);
        let ghost mid = table@;
        let product_id = old_row.product_id;
        let mut partners = old_row.partners;
        let ghost p0 = partners@;
        if !add_to_row(&mut partners, b) {
            proof {
                lemma_entry_is_cell(before, k as int, b@);
            }
            return false;
        }
        let ghost x = CoPurchases { product_id, partners };
        table.insert(k, CoPurchases { product_id, partners });
        proof {
            assert(table@ =~= before.update(k as int, x));
            assert forall|u: Seq<char>, y: Seq<char>| #[trigger]
                entry(table@, u, y) == entry(before, u, y) + if u == a@ && y == b@ {
                    1int
                } else {
                    0
                } by {
                lemma_entry_update(before, k as int, x, u, y);
                assert(cell(x.partners@, y) == cell(p0, y) + if y == b@ {
                    1int
                } else {
                    0
                });
            }
            assert forall|i: int, j: int| 0 <= i < j < table@.len() implies (
            #[trigger] table@[i]).product_id@ != (#[trigger] table@[j]).product_id@ by {
                assert(before[i].product_id@ != before[j].product_id@);
            }
            assert forall|i: int| 0 <= i < table@.len() implies row_ok(
                (#[trigger] table@[i]).partners@,
            ) && table@[i].partners@.len() > 0 by {
                if i != k {
                    assert(table@[i] == before[i]);
                }
            }
        }
    } else {
        let mut partners: Vec<Scored> = Vec::new();
        partners.push(Scored { score: 1, id: b.to_owned() });
        assert(partners@.drop_last() =~= Seq::<Scored>::empty());
        assert forall|y: Seq<char>| #[trigger] cell(partners@, y) == if y == b@ {
            1int
        } else {
            0
        } by {
            assert(cell(partners@.drop_last(), y) == 0);
        }
        table.push(CoPurchases { product_id: a.to_owned(), partners });
        proof {
            assert(table@.drop_last() =~= before);
            assert forall|i: int, j: int| 0 <= i < j < table@.len() implies (
            #[trigger] table@[i]).product_id@ != (#[trigger] table@[j]).product_id@ by {
                assert(table@[i] == before[i]);
                if j < before.len() {
                    assert(table@[j] == before[j]);
                }
            }
            assert forall|i: int| 0 <= i < table@.len() implies row_ok(
                (#[trigger] table@[i]).partners@,
            ) && table@[i].partners@.len() > 0 by {
                if i < before.len() {
                    assert(table@[i] == before[i]);
                }
            }
        }
    }
    true
}

/// What the pairs of the first `j` places count to, together with those of
/// place `j` and the first `i` places.
spec fn partial_pairs(
    ids: Seq<Seq<char>>,
    j: int,
    i: int,
    a: Seq<char>,
    b: Seq<char>,
) -> nat {
    pairs(ids.take(j), a, b) + (if ids[j] == b {
        occurrences(ids.take(i), a)
    } else {
        0
    }) + (if ids[j] == a {
        occurrences(ids.take(i), b)
    } else {
        0
    })
}

proof fn lemma_occurrences_prefix(ids: Seq<Seq<char>>, i: int, a: Seq<char>)
    requires
        0 <= i <= ids.len(),
    ensures
        occurrences(ids.take(i), a) <= occurrences(ids, a),
    decreases ids.len() - i,
{
    if i == ids.len() {
        assert(ids.take(i) =~= ids);
    } else {
        lemma_occurrences_prefix(ids, i + 1, a);
        assert(ids.take(i + 1).drop_last() =~= ids.take(i));
    }
}

proof fn lemma_pairs_prefix(ids: Seq<Seq<char>>, j: int, a: Seq<char>, b: Seq<char>)
    requires
        0 <= j <= ids.len(),
    ensures
        pairs(ids.take(j), a, b) <= pairs(ids, a, b),
    decreases ids.len() - j,
{
    if j == ids.len() {
        assert(ids.take(j) =~= ids);
    } else {
        lemma_pairs_prefix(ids, j + 1, a, b);
        assert(ids.take(j + 1).drop_last() =~= ids.take(j));
    }
}

/// The pairs up to some point are no more than all pairs.
proof fn lemma_partial_pairs(ids: Seq<Seq<char>>, j: int, i: int, a: Seq<char>, b: Seq<char>)
    requires
        0 <= i <= j < ids.len(),
    ensures
        partial_pairs(ids, j, i, a, b) <= pairs(ids, a, b),
        i == j ==> partial_pairs(ids, j, i, a, b) == pairs(ids.take(j + 1), a, b),
        i < j ==> partial_pairs(ids, j, i + 1, a, b) == partial_pairs(ids, j, i, a, b) + (if ids[j]
            == b && ids[i] == a {
            1nat
        } else {
            0
        }) + (if ids[j] == a && ids[i] == b {
            1nat
        } else {
            0
        }),
{
    assert(ids.take(j + 1).drop_last() =~= ids.take(j));
    assert(ids.take(j + 1).last() == ids[j]);
    assert(ids.take(j).take(i) =~= ids.take(i));
    lemma_occurrences_prefix(ids.take(j), i, a);
    lemma_occurrences_prefix(ids.take(j), i, b);
    lemma_pairs_prefix(ids, j + 1, a, b);
    if i < j {
        assert(ids.take(i + 1).drop_last() =~= ids.take(i));
        assert(ids.take(i + 1).last() == ids[i]);
    }
}

/// Counts the products of one order; `false` where a score would leave `u32`.
fn add_order(table: &mut Vec<CoPurchases>, ids: &Vec<String>) -> (r: bool)
    requires
        table_ok(old(table)@),
    ensures
        r ==> table_ok(final(table)@),
        r ==> forall|x: Seq<char>, y: Seq<char>| #[trigger]
            entry(final(table)@, x, y) == entry(old(table)@, x, y) + pairs(texts(ids@), x, y),
        !r ==> exists|x: Seq<char>, y: Seq<char>|
            #![trigger entry(old(table)@, x, y)]
            entry(old(table)@, x, y) + pairs(texts(ids@), x, y) > u32::MAX,
{
    let ghost before = table@;
    let ghost all = texts(ids@);
    let mut j: usize = 0;
    while j < ids.len()
        invariant
            j <= ids@.len(),
            all == texts(ids@),
            before == old(table)@,
            table_ok(table@),
            forall|x: Seq<char>, y: Seq<char>| #[trigger]
                entry(table@, x, y) == entry(before, x, y) + pairs(all.take(j as int), x, y),
        decreases ids@.len() - j,
    {
        let mut i: usize = 0;
        while i < j
            invariant
                i <= j < ids@.len(),
                all == texts(ids@),
                before == old(table)@,
                table_ok(table@),
                forall|x: Seq<char>, y: Seq<char>| #[trigger]
                    entry(table@, x, y) == entry(before, x, y) + partial_pairs(
                        all,
                        j as int,
                        i as int,
                        x,
                        y,
                    ),
            decreases j - i,
        {
            let a = ids[i].as_str();
            let b = ids[j].as_str();
            proof {
                assert(a@ == all[i as int] && b@ == all[j as int]);
                lemma_partial_pairs(all, j as int, i as int, a@, b@);
                lemma_partial_pairs(all, j as int, i as int, b@, a@);
                lemma_partial_pairs(all, j as int, i + 1, a@, b@);
                lemma_partial_pairs(all, j as int, i + 1, b@, a@);
            }
            if !add_to_table(table, a, b) {
                assert(entry(before, a@, b@) + pairs(all, a@, b@) > u32::MAX);
                return false;
            }
            if !add_to_table(table, b, a) {
                assert(entry(before, b@, a@) + pairs(all, b@, a@) > u32::MAX);
                return false;
            }
            proof {
                assert forall|x: Seq<char>, y: Seq<char>| #[trigger]
                    entry(table@, x, y) == entry(before, x, y) + partial_pairs(
                        all,
                        j as int,
                        i + 1,
                        x,
                        y,
                    ) by {
                    lemma_partial_pairs(all, j as int, i as int, x, y);
                }
            }
            i = i + 1;
        }
        proof {
            assert forall|x: Seq<char>, y: Seq<char>| #[trigger]
                entry(table@, x, y) == entry(before, x, y) + pairs(all.take(j + 1), x, y) by {
                lemma_partial_pairs(all, j as int, j as int, x, y);
            }
        }
        j = j + 1;
    }
    assert(all.take(j as int) =~= all);
    true
}

/// The products of an order.
pub fn bought_products(order: &serde_json::Value) -> (r: Vec<String>)
    ensures
        texts(r@) == bought(json_of(*order)),
{
    let mut out: Vec<String> = Vec::new();
    let items = match json::list_field(order, fields::ITEMS) {
        Some(v) => v,
        None => {
            assert(texts(out@) =~= Seq::<Seq<char>>::empty());
            return out;
        },
    };
    let ghost all = jsons(items@);
    let mut i: usize = 0;
    assert(texts(out@) =~= product_ids(all.take(0)));
    while i < items.len()
        invariant
            i <= items@.len(),
            all == jsons(items@),
            texts(out@) == product_ids(all.take(i as int)),
        decreases items@.len() - i,
    {
        proof {
            assert(all.take(i + 1).drop_last() =~= all.take(i as int));
            assert(all.take(i + 1).last() == json_of(items@[i as int]));
        }
        let ghost before = texts(out@);
        if let Some(id) = json::text_field(&items[i], fields::PRODUCT_ID) {
            out.push(id.to_owned());
            assert(texts(out@) =~= before.push(id@));
        }
        i = i + 1;
    }
    assert(all.take(i as int) =~= all);
    out
}

/// No two products were bought together more often than `u32` counts.
pub open spec fn scores_fit(orders: Seq<Json>) -> bool {
    forall|a: Seq<char>, b: Seq<char>| #[trigger] together(orders, a, b) <= u32::MAX
}

/// The table holds how often products were bought together.
pub open spec fn tabulates(table: Seq<CoPurchases>, orders: Seq<Json>) -> bool {
    &&& table_ok(table)
    &&& forall|a: Seq<char>, b: Seq<char>| #[trigger]
        entry(table, a, b) == together(orders, a, b)
}

proof fn lemma_together_prefix(orders: Seq<Json>, k: int, a: Seq<char>, b: Seq<char>)
    requires
        0 <= k <= orders.len(),
    ensures
        together(orders.take(k), a, b) <= together(orders, a, b),
    decreases orders.len() - k,
{
    if k == orders.len() {
        assert(orders.take(k) =~= orders);
    } else {
        lemma_together_prefix(orders, k + 1, a, b);
        assert(orders.take(k + 1).drop_last() =~= orders.take(k));
    }
}

/// In a table without repetitions an entry fits in `u32`, as each score does.
proof fn lemma_entry_fits(table: Seq<CoPurchases>, a: Seq<char>, b: Seq<char>)
    requires
        table_ok(table),
    ensures
        entry(table, a, b) <= u32::MAX,
{
    if forall|i: int| 0 <= i < table.len() ==> (#[trigger] table[i]).product_id@ != a {
        lemma_entry_absent(table, a, b);
    } else {
        let k = choose|k: int| 0 <= k < table.len() && (#[trigger] table[k]).product_id@ == a;
        let row = table[k].partners@;
        lemma_entry_is_cell(table, k, b);
        assert(row_ok(row));
        if forall|i: int| 0 <= i < row.len() ==> (#[trigger] row[i]).id@ != b {
            lemma_cell_absent(row, b);
        } else {
            let i = choose|i: int| 0 <= i < row.len() && (#[trigger] row[i]).id@ == b;
            lemma_cell_is_score(row, i);
        }
    }
}

/// How often products were bought together; nothing where a score leaves
/// `u32`.
pub fn co_occurrences(orders: &Vec<serde_json::Value>) -> (r: Option<Vec<CoPurchases>>)
    ensures
        match r {
            Some(t) => tabulates(t@, jsons(orders@)) && scores_fit(jsons(orders@)),
            None => !scores_fit(jsons(orders@)),
        },
{
    let ghost all = jsons(orders@);
    let mut table: Vec<CoPurchases> = Vec::new();
    let mut o: usize = 0;
    assert forall|a: Seq<char>, b: Seq<char>| #[trigger]
        entry(table@, a, b) == together(all.take(0), a, b) by {}
    while o < orders.len()
        invariant
            o <= orders@.len(),
            all == jsons(orders@),
            tabulates(table@, all.take(o as int)),
        decreases orders@.len() - o,
    {
        let ids = bought_products(&orders[o]);
        let ghost before = table@;
        proof {
            assert(all.take(o + 1).drop_last() =~= all.take(o as int));
            assert(all.take(o + 1).last() == json_of(orders@[o as int]));
        }
        if !add_order(&mut table, &ids) {
            proof {
                let (x, y) = choose|x: Seq<char>, y: Seq<char>|
                    #![trigger entry(before, x, y)]
                    entry(before, x, y) + pairs(texts(ids@), x, y) > u32::MAX;
                lemma_together_prefix(all, o + 1, x, y);
                assert(together(all.take(o + 1), x, y) > u32::MAX);
                assert(together(all, x, y) > u32::MAX);
            }
            return None;
        }
        o = o + 1;
    }
    assert(all.take(o as int) =~= all);
    proof {
        assert forall|a: Seq<char>, b: Seq<char>| #[trigger] together(all, a, b) <= u32::MAX by {
            assert(entry(table@, a, b) == together(all, a, b));
            lemma_entry_fits(table@, a, b);
        }
    }
    Some(table)
}

// ------------------------------------------------------------- recommendations

/// What is recommended with one product.
pub struct Recommendations {
    /// The key that the document is stored under.
    pub key: String,
    pub product_id: String,
    /// By falling score.
    pub items: Vec<Scored>,
}

/// The recommendations of a product: those bought with it most often.
pub open spec fn recommends_best(items: Seq<Scored>, orders: Seq<Json>, a: Seq<char>) -> bool {
    &&& 0 < items.len() <= MAX_RECOMMENDATIONS
    &&& falls(scores(items))
    &&& forall|i: int, j: int|
        0 <= i < j < items.len() ==> (#[trigger] items[i]).id@ != (#[trigger] items[j]).id@
    &&& forall|i: int|
        0 <= i < items.len() ==> (#[trigger] items[i]).score == together(orders, a, items[i].id@)
            && items[i].score > 0
    &&& forall|b: Seq<char>|
        #[trigger] together(orders, a, b) > 0 ==> (exists|i: int|
            0 <= i < items.len() && (#[trigger] items[i]).id@ == b) || (items.len()
            == MAX_RECOMMENDATIONS && forall|i: int|
            0 <= i < items.len() ==> (#[trigger] items[i]).score >= together(orders, a, b))
}

/// A row holds what was bought with its product.
proof fn lemma_row(table: Seq<CoPurchases>, orders: Seq<Json>, k: int)
    requires
        tabulates(table, orders),
        0 <= k < table.len(),
    ensures
        row_ok(table[k].partners@),
        forall|i: int|
            0 <= i < table[k].partners@.len() ==> (#[trigger] table[k].partners@[i]).score
                == together(orders, table[k].product_id@, table[k].partners@[i].id@),
        forall|b: Seq<char>|
            #[trigger] together(orders, table[k].product_id@, b) > 0 ==> exists|i: int|
                0 <= i < table[k].partners@.len() && (#[trigger] table[k].partners@[i]).id@ == b,
{
    let row = table[k].partners@;
    let a = table[k].product_id@;
    assert forall|i: int| 0 <= i < row.len() implies (#[trigger] row[i]).score == together(
        orders,
        a,
        row[i].id@,
    ) by {
        lemma_entry_is_cell(table, k, row[i].id@);
        lemma_cell_is_score(row, i);
        assert(entry(table, a, row[i].id@) == together(orders, a, row[i].id@));
    }
    assert forall|b: Seq<char>| #[trigger] together(orders, a, b) > 0 implies exists|i: int|
        0 <= i < row.len() && (#[trigger] row[i]).id@ == b by {
        if forall|i: int| 0 <= i < row.len() ==> (#[trigger] row[i]).id@ != b {
            lemma_cell_absent(row, b);
            lemma_entry_is_cell(table, k, b);
            assert(entry(table, a, b) == together(orders, a, b));
        }
    }
}

/// The top of a row recommends the best.
proof fn lemma_top_recommends(
    row: Seq<Scored>,
    best: Seq<Scored>,
    orders: Seq<Json>,
    a: Seq<char>,
)
    requires
        row.len() > 0,
        row_ok(row),
        scores(best) == first_n(ranked(scores(row)), MAX_RECOMMENDATIONS as int),
        forall|i: int|
            0 <= i < row.len() ==> (#[trigger] row[i]).score == together(orders, a, row[i].id@),
        forall|b: Seq<char>|
            #[trigger] together(orders, a, b) > 0 ==> exists|i: int|
                0 <= i < row.len() && (#[trigger] row[i]).id@ == b,
    ensures
        recommends_best(best, orders, a),
{
    broadcast use vstd::seq_lib::group_to_multiset_ensures;

    let s = scores(row);
    let full = ranked(s);
    let head = scores(best);
    lists::law_ranked(s);
    assert(s.no_duplicates()) by {
        assert forall|i: int, j: int| 0 <= i < s.len() && 0 <= j < s.len() && i != j implies s[i]
            != s[j] by {
            if i < j {
                assert(row[i].id@ != row[j].id@);
            } else {
                assert(row[j].id@ != row[i].id@);
            }
        }
    }
    s.lemma_multiset_has_no_duplicates();
    full.lemma_multiset_has_no_duplicates_conv();
    assert(head.len() == best.len());
    assert forall|i: int| 0 <= i < full.len() implies s.contains(#[trigger] full[i]) by {
        assert(full.contains(full[i]));
        assert(full.to_multiset().count(full[i]) > 0);
    }
    assert forall|i: int| 0 <= i < best.len() implies (#[trigger] best[i]).score == together(
        orders,
        a,
        best[i].id@,
    ) && best[i].score > 0 by {
        assert(head[i] == full[i]);
        assert(s.contains(full[i]));
        let k = choose|k: int| 0 <= k < s.len() && s[k] == full[i];
        assert(row[k].id@ == best[i].id@ && row[k].score == best[i].score);
    }
    assert forall|i: int, j: int| 0 <= i < j < best.len() implies (#[trigger] best[i]).id@ != (
    #[trigger] best[j]).id@ by {
        assert(head[i] == full[i] && head[j] == full[j]);
        assert(full[i] != full[j]);
        assert(best[i].score == together(orders, a, best[i].id@));
        assert(best[j].score == together(orders, a, best[j].id@));
    }
    assert(falls(head)) by {
        assert forall|i: int, j: int| 0 <= i < j < head.len() implies (#[trigger] head[i]).0 >= (
        #[trigger] head[j]).0 by {
            assert(full[i].0 >= full[j].0);
        }
    }
    assert forall|b: Seq<char>| #[trigger] together(orders, a, b) > 0 implies (exists|i: int|
        0 <= i < best.len() && (#[trigger] best[i]).id@ == b) || (best.len() == MAX_RECOMMENDATIONS
        && forall|i: int|
        0 <= i < best.len() ==> (#[trigger] best[i]).score >= together(orders, a, b)) by {
        let k = choose|k: int| 0 <= k < row.len() && (#[trigger] row[k]).id@ == b;
        assert(s[k] == (row[k].score, b));
        assert(s.contains(s[k]));
        assert(s.to_multiset().count(s[k]) > 0);
        assert(full.to_multiset().count(s[k]) > 0);
        assert(full.contains(s[k]));
        let m = choose|m: int| 0 <= m < full.len() && full[m] == s[k];
        if m < head.len() {
            assert(head[m] == full[m]);
            assert(best[m].id@ == b);
        } else {
            assert forall|i: int| 0 <= i < best.len() implies (#[trigger] best[i]).score
                >= together(orders, a, b) by {
                assert(head[i] == full[i]);
                assert(full[i].0 >= full[m].0);
            }
        }
    }
}

/// The products that a list of recommendations is for.
pub open spec fn recommended_for(v: Seq<Recommendations>) -> Seq<Seq<char>> {
    Seq::new(v.len(), |i: int| v[i].product_id@)
}

/// What to recommend with each product that was bought together with another;
/// nothing where a score leaves `u32`. Where more than ten score alike, which
/// of them are kept is left open.
pub fn co_purchase_recommendations(orders: &Vec<serde_json::Value>) -> (r: Option<
    Vec<Recommendations>,
>)
    ensures
        match r {
            Some(v) => {
                let all = jsons(orders@);
                &&& scores_fit(all)
                &&& recommended_for(v@).no_duplicates()
                &&& forall|i: int|
                    0 <= i < v@.len() ==> recommends_best(
                        (#[trigger] v@[i]).items@,
                        all,
                        v@[i].product_id@,
                    ) && v@[i].key@ == text::char_replaced(v@[i].product_id@, ':', '_')
                &&& forall|a: Seq<char>, b: Seq<char>| #[trigger]
                    together(all, a, b) > 0 ==> recommended_for(v@).contains(a)
            },
            None => !scores_fit(jsons(orders@)),
        },
{
    let table = co_occurrences(orders)?;
    let ghost all = jsons(orders@);
    let mut out: Vec<Recommendations> = Vec::new();
    let mut k: usize = 0;
    while k < table.len()
        invariant
            k <= table@.len(),
            out@.len() == k,
            tabulates(table@, all),
            forall|i: int|
                0 <= i < k ==> recommends_best(
                    (#[trigger] out@[i]).items@,
                    all,
                    out@[i].product_id@,
                ) && out@[i].key@ == text::char_replaced(out@[i].product_id@, ':', '_')
                    && out@[i].product_id@ == table@[i].product_id@,
        decreases table@.len() - k,
    {
        let row = &table[k];
        let best = lists::top(&row.partners, MAX_RECOMMENDATIONS);
        proof {
            lemma_row(table@, all, k as int);
            lemma_top_recommends(row.partners@, best@, all, row.product_id@);
        }
        out.push(
            Recommendations {
                key: text::replace_char(row.product_id.as_str(), ':', '_'),
                product_id: row.product_id.clone(),
                items: best,
            },
        );
        k = k + 1;
    }
    proof {
        let names = recommended_for(out@);
        assert forall|i: int, j: int|
            0 <= i < names.len() && 0 <= j < names.len() && i != j implies names[i] != names[j] by {
            assert(names[i] == table@[i].product_id@);
            assert(names[j] == table@[j].product_id@);
        }
        assert forall|a: Seq<char>, b: Seq<char>| #[trigger]
            together(all, a, b) > 0 implies names.contains(a) by {
            assert(entry(table@, a, b) == together(all, a, b));
            if forall|j: int| 0 <= j < table@.len() ==> (#[trigger] table@[j]).product_id@ != a {
                lemma_entry_absent(table@, a, b);
            }
            let j = choose|j: int| 0 <= j < table@.len() && (#[trigger] table@[j]).product_id@ == a;
            assert(names[j] == a);
        }
    }
    Some(out)
}

// ------------------------------------------------------------------------ laws

/// The products of an order whose items all name one are as many as the items,
/// each that of its item, whatever else the items hold.
pub proof fn law_one_product_per_item(items: Seq<Json>)
    requires
        forall|i: int|
            0 <= i < items.len() ==> json::text_at(#[trigger] items[i], "productId"@) is Some,
    ensures
        product_ids(items).len() == items.len(),
        forall|i: int|
            0 <= i < items.len() ==> json::text_at(items[i], "productId"@) == Some(
                #[trigger] product_ids(items)[i],
            ),
    decreases items.len(),
{
    if items.len() > 0 {
        let init = items.drop_last();
        assert forall|i: int| 0 <= i < init.len() implies json::text_at(
            #[trigger] init[i],
            "productId"@,
        ) is Some by {
            assert(init[i] == items[i]);
        }
        law_one_product_per_item(init);
        assert(json::text_at(items[items.len() - 1], "productId"@) is Some);
    }
}

/// An item adds its product behind those of the items before it, and nothing
/// where it names none.
pub proof fn law_products_follow_items(items: Seq<Json>, item: Json)
    ensures
        product_ids(items.push(item)) == match json::text_at(item, "productId"@) {
            Some(id) => product_ids(items).push(id),
            None => product_ids(items),
        },
        product_ids(Seq::empty()) == Seq::<Seq<char>>::empty(),
{
    assert(items.push(item).drop_last() =~= items);
}

/// One more order adds to a pair of products how often its items pair them,
/// and without orders nothing was bought together.
pub proof fn law_orders_add_up(orders: Seq<Json>, order: Json, a: Seq<char>, b: Seq<char>)
    ensures
        together(orders.push(order), a, b) == together(orders, a, b) + pairs(
            product_ids(json::items_at(order, "items"@)),
            a,
            b,
        ),
        together(Seq::empty(), a, b) == 0,
{
    assert(orders.push(order).drop_last() =~= orders);
}

/// How often products that each occur once pair.
proof fn lemma_pairs_of_distinct(ids: Seq<Seq<char>>, a: Seq<char>, b: Seq<char>)
    requires
        ids.no_duplicates(),
    ensures
        occurrences(ids, a) == if ids.contains(a) {
            1nat
        } else {
            0
        },
        pairs(ids, a, b) == if a != b && ids.contains(a) && ids.contains(b) {
            1nat
        } else {
            0
        },
    decreases ids.len(),
{
    if ids.len() > 0 {
        let init = ids.drop_last();
        let last = ids.last();
        assert(init.no_duplicates());
        lemma_pairs_of_distinct(init, a, b);
        lemma_pairs_of_distinct(init, b, a);
        assert(!init.contains(last)) by {
            if init.contains(last) {
                let j = choose|j: int| 0 <= j < init.len() && init[j] == last;
                assert(ids[j] == ids[ids.len() - 1]);
            }
        }
        assert forall|x: Seq<char>| ids.contains(x) <==> init.contains(x) || x == last by {
            if ids.contains(x) {
                let j = choose|j: int| 0 <= j < ids.len() && ids[j] == x;
                if j < init.len() {
                    assert(init[j] == x);
                }
            }
            if init.contains(x) {
                let j = choose|j: int| 0 <= j < init.len() && init[j] == x;
                assert(ids[j] == x);
            }
            assert(ids[ids.len() - 1] == last);
        }
    }
}

/// An order whose items name different products adds one to every pair of two
/// different products in it, and nothing to any other pair nor to a product
/// with itself.
pub proof fn law_order_pairs_its_products_once(
    orders: Seq<Json>,
    order: Json,
    a: Seq<char>,
    b: Seq<char>,
)
    requires
        ({
            let items = json::items_at(order, "items"@);
            &&& forall|i: int|
                0 <= i < items.len() ==> json::text_at(#[trigger] items[i], "productId"@) is Some
            &&& forall|i: int, j: int|
                0 <= i < j < items.len() ==> json::text_at(#[trigger] items[i], "productId"@)
                    != json::text_at(#[trigger] items[j], "productId"@)
        }),
    ensures
        ({
            let items = json::items_at(order, "items"@);
            let holds = |p: Seq<char>|
                exists|i: int|
                    0 <= i < items.len() && json::text_at(#[trigger] items[i], "productId"@)
                        == Some(p);
            together(orders.push(order), a, b) == together(orders, a, b) + if a != b && holds(a)
                && holds(b) {
                1nat
            } else {
                0nat
            }
        }),
{
    let items = json::items_at(order, "items"@);
    let ids = product_ids(items);
    law_orders_add_up(orders, order, a, b);
    law_one_product_per_item(items);
    assert forall|i: int, j: int| 0 <= i < ids.len() && 0 <= j < ids.len() && i != j implies ids[i]
        != ids[j] by {
        if i < j {
            assert(json::text_at(items[i], "productId"@) != json::text_at(
                items[j],
                "productId"@,
            ));
        } else {
            assert(json::text_at(items[j], "productId"@) != json::text_at(
                items[i],
                "productId"@,
            ));
        }
    }
    lemma_pairs_of_distinct(ids, a, b);
    assert forall|p: Seq<char>| #[trigger] ids.contains(p) <==> exists|i: int|
        0 <= i < items.len() && json::text_at(#[trigger] items[i], "productId"@) == Some(p) by {
        if ids.contains(p) {
            let i = choose|i: int| 0 <= i < ids.len() && ids[i] == p;
            assert(json::text_at(items[i], "productId"@) == Some(p));
        }
        if exists|i: int|
            0 <= i < items.len() && json::text_at(#[trigger] items[i], "productId"@) == Some(p) {
            let i = choose|i: int|
                0 <= i < items.len() && json::text_at(#[trigger] items[i], "productId"@) == Some(p);
            assert(ids[i] == p);
        }
    }
}

/// A product that stands in an order once more pairs with each place where the
/// order holds the other product, and with itself both ways.
pub proof fn law_pairs_count_places(ids: Seq<Seq<char>>, x: Seq<char>, a: Seq<char>, b: Seq<char>)
    ensures
        x != a && x != b ==> pairs(ids.push(x), a, b) == pairs(ids, a, b),
        x == b && a != b ==> pairs(ids.push(x), a, b) == pairs(ids, a, b) + ids.to_multiset().count(
            a,
        ),
        x == a && a == b ==> pairs(ids.push(x), a, b) == pairs(ids, a, b) + 2
            * ids.to_multiset().count(a),
        pairs(Seq::empty(), a, b) == 0,
{
    assert(ids.push(x).drop_last() =~= ids);
    lemma_occurrences(ids, a);
    lemma_occurrences(ids, b);
}

proof fn lemma_occurrences(ids: Seq<Seq<char>>, a: Seq<char>)
    ensures
        occurrences(ids, a) == ids.to_multiset().count(a),
    decreases ids.len(),
{
    broadcast use vstd::seq_lib::group_to_multiset_ensures;

    if ids.len() > 0 {
        lemma_occurrences(ids.drop_last(), a);
        assert(ids =~= ids.drop_last().push(ids.last()));
        assert(ids.to_multiset() == ids.drop_last().to_multiset().insert(ids.last()));
    } else {
        assert(ids.to_multiset().count(a) == 0);
    }
}

/// The recommendations of a product are no more than ten, by falling number of
/// joint purchases, none twice, each with that number; and where fewer than
/// ten are given nothing that was bought with the product is missing.
pub proof fn law_recommendations_are_the_best(
    items: Seq<Scored>,
    orders: Seq<Json>,
    a: Seq<char>,
    b: Seq<char>,
)
    requires
        recommends_best(items, orders, a),
    ensures
        0 < items.len() <= 10,
        forall|i: int, j: int|
            0 <= i < j < items.len() ==> (#[trigger] items[i]).score >= (#[trigger] items[j]).score
                && items[i].id@ != items[j].id@,
        forall|i: int|
            0 <= i < items.len() ==> (#[trigger] items[i]).score == together(
                orders,
                a,
                items[i].id@,
            ) && items[i].score > 0,
        ({
            let listed = exists|i: int| 0 <= i < items.len() && (#[trigger] items[i]).id@ == b;
            &&& items.len() < 10 ==> (listed <==> together(orders, a, b) > 0)
            &&& !listed ==> forall|i: int|
                0 <= i < items.len() ==> (#[trigger] items[i]).score >= together(orders, a, b)
        }),
{
    assert forall|i: int, j: int| 0 <= i < j < items.len() implies (#[trigger] items[i]).score >= (
    #[trigger] items[j]).score by {
        assert(scores(items)[i].0 >= scores(items)[j].0);
    }
    assert(together(orders, a, b) >= 0);
}

/// Recommendations come out wherever no two products were bought together more
/// often than `u32` counts.
pub proof fn law_recommendations_come_out(orders: Seq<Json>)
    requires
        forall|a: Seq<char>, b: Seq<char>| #[trigger] together(orders, a, b) <= 0xffff_ffff,
    ensures
        scores_fit(orders),
{
}

} // verus!

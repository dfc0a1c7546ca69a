//! Products that are in demand.
use vstd::prelude::*;

use crate::cron::cleanup::{ids_to_delete, named_ids};
use crate::fields;
use crate::json;
use crate::json::{json_of, jsons, Json};
use crate::lists;
use crate::lists::{first_n, ranked, scores, texts, Scored};

verus! {

/// The weight of a view in the score of a product.
pub const TRENDING_VIEW_WEIGHT: u32 = 1;

/// The weight of a purchase in the score of a product.
pub const TRENDING_PURCHASE_WEIGHT: u32 = 3;

/// The weight of a favourite in the score of a product.
pub const TRENDING_FAVORITE_WEIGHT: u32 = 2;

/// The most products that are marked as trending.
pub const MAX_TRENDING: usize = 20;

/// The most products that the list of trending products holds.
pub const MAX_TRENDING_LIST: usize = 50;

/// The identifier of a product.
pub open spec fn product_id_of(product: Json) -> Seq<char> {
    json::text_or_empty(product, fields::ID@)
}

/// The products with a score, in order.
pub open spec fn candidates(products: Seq<Json>, ranks: Seq<Option<u64>>) -> Seq<(u64, Seq<char>)>
    decreases products.len(),
{
    if products.len() == 0 {
        Seq::empty()
    } else {
        let before = candidates(products.drop_last(), ranks);
        match ranks[products.len() - 1] {
            Some(k) => before.push((k, product_id_of(products.last()))),
            None => before,
        }
    }
}

/// The products that are marked as trending now, each once, in order.
pub open spec fn marked_before(products: Seq<Json>) -> Seq<Seq<char>>
    decreases products.len(),
{
    if products.len() == 0 {
        Seq::empty()
    } else {
        let before = marked_before(products.drop_last());
        if json::flag_at_or(products.last(), fields::IS_TRENDING@, false) {
            lists::with_distinct(before, product_id_of(products.last()))
        } else {
            before
        }
    }
}

/// The identifiers of scored products.
pub open spec fn ids_of(s: Seq<(u64, Seq<char>)>) -> Seq<Seq<char>> {
    Seq::new(s.len(), |i: int| s[i].1)
}

/// Those of `old` that `kept` does not hold.
pub open spec fn dropped(old: Seq<Seq<char>>, kept: Seq<Seq<char>>) -> Seq<Seq<char>>
    decreases old.len(),
{
    if old.len() == 0 {
        Seq::empty()
    } else {
        let before = dropped(old.drop_last(), kept);
        if kept.contains(old.last()) {
            before
        } else {
            before.push(old.last())
        }
    }
}

/// Which products become and which stop being trending, and what is kept of
/// the scores.
pub struct TrendingPlan {
    /// Every product with a score, in order.
    pub scored: Vec<Scored>,
    /// Those that the list of trending products holds, by falling score.
    pub top: Vec<Scored>,
    /// Those to mark, by falling score.
    pub marked: Vec<Scored>,
    /// Those to clear.
    pub cleared: Vec<String>,
}

/// Whether a list of scored products holds an identifier.
fn holds_id(v: &Vec<Scored>, id: &str) -> (r: bool)
    ensures
        r == ids_of(scores(v@)).contains(id@),
{
    let mut i: usize = 0;
    while i < v.len()
        invariant
            i <= v@.len(),
            forall|j: int| 0 <= j < i ==> ids_of(scores(v@))[j] != id@,
        decreases v@.len() - i,
    {
        if crate::text::same(v[i].id.as_str(), id) {
            assert(ids_of(scores(v@))[i as int] == id@);
            return true;
        }
        i = i + 1;
    }
    false
}

/// Decides which products become and which stop being trending. `ranks` gives
/// for each product a number that orders it by its score, and nothing where
/// its score is not positive. Every product with a score keeps it, and the
/// highest make up the list of trending products. The highest of these become
/// trending, of equal ones those that come first; of the others those that
/// were trending stop being it.
pub fn plan_trending(products: &Vec<serde_json::Value>, ranks: &Vec<Option<u64>>) -> (r:
    TrendingPlan)
    requires
        ranks@.len() == products@.len(),
    ensures
        ({
            let all = candidates(jsons(products@), ranks@);
            let best = first_n(ranked(all), MAX_TRENDING as int);
            &&& scores(r.scored@) == all
            &&& scores(r.top@) == first_n(ranked(all), MAX_TRENDING_LIST as int)
            &&& scores(r.marked@) == best
            &&& texts(r.cleared@) == dropped(marked_before(jsons(products@)), ids_of(best))
        }),
{
    let ghost all = jsons(products@);
    let mut scored: Vec<Scored> = Vec::new();
    let mut old: Vec<String> = Vec::new();
    let mut i: usize = 0;
    assert(scores(scored@) =~= candidates(all.take(0), ranks@));
    assert(texts(old@) =~= marked_before(all.take(0)));
    while i < products.len()
        invariant
            i <= products@.len(),
            ranks@.len() == products@.len(),
            all == jsons(products@),
            scores(scored@) == candidates(all.take(i as int), ranks@),
            texts(old@) == marked_before(all.take(i as int)),
        decreases products@.len() - i,
    {
        proof {
            assert(all.take(i + 1).drop_last() =~= all.take(i as int));
            assert(all.take(i + 1).last() == json_of(products@[i as int]));
        }
        let id = json::text_field_or_empty(&products[i], fields::ID);
        if json::flag_field_or(&products[i], fields::IS_TRENDING, false) {
            lists::add_distinct(&mut old, id);
        }
        if let Some(k) = ranks[i] {
            let ghost before = scores(scored@);
            scored.push(Scored { score: k, id: id.to_owned() });
            assert(scores(scored@) =~= before.push((k, id@)));
        }
        i = i + 1;
    }
    assert(all.take(i as int) =~= all);
    let top = lists::top(&scored, MAX_TRENDING_LIST);
    let marked = lists::top(&scored, MAX_TRENDING);
    let ghost kept = ids_of(scores(marked@));
    let ghost was = texts(old@);
    let mut cleared: Vec<String> = Vec::new();
    let mut k: usize = 0;
    assert(texts(cleared@) =~= dropped(was.take(0), kept));
    while k < old.len()
        invariant
            k <= old@.len(),
            was == texts(old@),
            kept == ids_of(scores(marked@)),
            texts(cleared@) == dropped(was.take(k as int), kept),
        decreases old@.len() - k,
    {
        proof {
            assert(was.take(k + 1).drop_last() =~= was.take(k as int));
            assert(was.take(k + 1).last() == old@[k as int]@);
        }
        if !holds_id(&marked, old[k].as_str()) {
            let ghost before = texts(cleared@);
            cleared.push(old[k].clone());
            assert(texts(cleared@) =~= before.push(old@[k as int]@));
        }
        k = k + 1;
    }
    assert(was.take(k as int) =~= was);
    TrendingPlan { scored, top, marked, cleared }
}

/// The entries of the list of trending products that `top` no longer holds.
pub fn stale_entries(entries: &Vec<serde_json::Value>, top: &Vec<Scored>) -> (r: Vec<String>)
    ensures
        texts(r@) == dropped(named_ids(jsons(entries@)), ids_of(scores(top@))),
{
    let listed = ids_to_delete(entries);
    let ghost was = texts(listed@);
    let ghost kept = ids_of(scores(top@));
    let mut out: Vec<String> = Vec::new();
    let mut k: usize = 0;
    assert(texts(out@) =~= dropped(was.take(0), kept));
    while k < listed.len()
        invariant
            k <= listed@.len(),
            was == texts(listed@),
            kept == ids_of(scores(top@)),
            texts(out@) == dropped(was.take(k as int), kept),
        decreases listed@.len() - k,
    {
        proof {
            assert(was.take(k + 1).drop_last() =~= was.take(k as int));
            assert(was.take(k + 1).last() == listed@[k as int]@);
        }
        if !holds_id(top, listed[k].as_str()) {
            let ghost before = texts(out@);
            out.push(listed[k].clone());
            assert(texts(out@) =~= before.push(listed@[k as int]@));
        }
        k = k + 1;
    }
    assert(was.take(k as int) =~= was);
    out
}

/// The products that are marked lead the list of trending products, and the
/// list holds no product that has no score.
pub proof fn law_marked_lead_the_list(products: Seq<Json>, ranks: Seq<Option<u64>>)
    requires
        ranks.len() == products.len(),
    ensures
        ({
            let all = candidates(products, ranks);
            let top = first_n(ranked(all), MAX_TRENDING_LIST as int);
            &&& first_n(ranked(all), MAX_TRENDING as int) == first_n(top, MAX_TRENDING as int)
            &&& forall|i: int| 0 <= i < top.len() ==> all.contains(#[trigger] top[i])
            &&& all.len() <= MAX_TRENDING_LIST ==> top.len() == all.len()
        }),
{
    let all = candidates(products, ranks);
    let sorted = ranked(all);
    let top = first_n(sorted, MAX_TRENDING_LIST as int);
    lists::law_ranked(all);
    assert(first_n(sorted, MAX_TRENDING as int) =~= first_n(top, MAX_TRENDING as int));
    assert forall|i: int| 0 <= i < top.len() implies all.contains(#[trigger] top[i]) by {
        assert(sorted.contains(sorted[i]));
        sorted.to_multiset_ensures();
        all.to_multiset_ensures();
        assert(sorted.to_multiset().count(sorted[i]) > 0);
    }
}

/// No product is both marked and cleared, and each that was marked before is
/// one or the other.
pub proof fn law_trending_plan_is_consistent(old: Seq<Seq<char>>, kept: Seq<Seq<char>>)
    ensures
        forall|x: Seq<char>| #[trigger]
            dropped(old, kept).contains(x) <==> old.contains(x) && !kept.contains(x),
    decreases old.len(),
{
    if old.len() > 0 {
        let init = old.drop_last();
        let before = dropped(init, kept);
        law_trending_plan_is_consistent(init, kept);
        assert forall|x: Seq<char>| #[trigger] dropped(old, kept).contains(x) <==> old.contains(x)
            && !kept.contains(x) by {
            if old.contains(x) && !kept.contains(x) {
                let i = choose|i: int| 0 <= i < old.len() && old[i] == x;
                if i < init.len() {
                    assert(init[i] == x);
                    assert(before.contains(x));
                    let j = choose|j: int| 0 <= j < before.len() && before[j] == x;
                    assert(dropped(old, kept)[j] == x);
                } else {
                    assert(dropped(old, kept)[before.len() as int] == x);
                }
            }
            if dropped(old, kept).contains(x) {
                let j = choose|j: int| 0 <= j < dropped(old, kept).len() && dropped(old, kept)[j]
                    == x;
                if j < before.len() {
                    assert(before[j] == x);
                    assert(before.contains(x));
                    let i = choose|i: int| 0 <= i < init.len() && init[i] == x;
                    assert(old[i] == x);
                } else {
                    assert(old[old.len() - 1] == x);
                }
            }
        }
    }
}

/// A product with a score is a candidate with it, one without is none; those
/// marked before are the ones whose flag says so, each once.
pub proof fn law_candidates_follow_products(
    products: Seq<Json>,
    product: Json,
    ranks: Seq<Option<u64>>,
)
    requires
        ranks.len() > products.len(),
    ensures
        candidates(products.push(product), ranks) == match ranks[products.len() as int] {
            Some(k) => candidates(products, ranks).push((k, json::text_or_empty(product, "id"@))),
            None => candidates(products, ranks),
        },
        candidates(Seq::empty(), ranks).len() == 0,
        ({
            let id = json::text_or_empty(product, "id"@);
            let before = marked_before(products);
            marked_before(products.push(product)) == if json::flag_at(product, "isTrending"@)
                == Some(true) && !before.contains(id) {
                before.push(id)
            } else {
                before
            }
        }),
        marked_before(Seq::empty()).len() == 0,
{
    assert(products.push(product).drop_last() =~= products);
    assert(products.push(product).last() == product);
}

/// A product that scores higher than one on the list is on the list, too: no
/// one is passed over.
pub proof fn law_list_holds_the_highest(s: Seq<(u64, Seq<char>)>, n: int, x: (u64, Seq<char>))
    requires
        n >= 0,
        s.contains(x),
        !first_n(ranked(s), n).contains(x),
    ensures
        first_n(ranked(s), n).len() == n,
        forall|i: int|
            0 <= i < n ==> (#[trigger] first_n(ranked(s), n)[i]).0 >= x.0,
{
    let sorted = ranked(s);
    lists::law_ranked(s);
    sorted.to_multiset_ensures();
    s.to_multiset_ensures();
    assert(s.to_multiset().count(x) > 0);
    assert(sorted.contains(x));
    let k = choose|k: int| 0 <= k < sorted.len() && sorted[k] == x;
    if sorted.len() <= n {
        assert(first_n(sorted, n)[k] == x);
    } else {
        if k < n {
            assert(first_n(sorted, n)[k] == x);
        }
        assert forall|i: int| 0 <= i < n implies (#[trigger] first_n(sorted, n)[i]).0 >= x.0 by {
            assert(sorted[i].0 >= sorted[k].0);
        }
    }
}

/// The list holds 50 products and 20 are marked, or all where there are fewer.
pub proof fn law_list_sizes(s: Seq<(u64, Seq<char>)>)
    ensures
        first_n(ranked(s), MAX_TRENDING_LIST as int).len() == if s.len() < 50 {
            s.len()
        } else {
            50
        },
        first_n(ranked(s), MAX_TRENDING as int).len() == if s.len() < 20 {
            s.len()
        } else {
            20
        },
{
    lists::law_ranked(s);
}

} // verus!

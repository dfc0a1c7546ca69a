//! Search index updates that failed and are tried again.
use vstd::prelude::*;

use crate::fields;
use crate::json;
use crate::json::{json_of, jsons, Json};
use crate::rules;
use crate::text;

verus! {

/// The number of products that a count query reports, 0 where it reports none.
pub open spec fn reported_count(rows: Seq<Json>) -> i64 {
    if rows.len() == 0 {
        0
    } else {
        json::int_at_or(rows[0], "total"@, 0)
    }
}

/// The number of products that a count query reports.
pub fn active_product_count(rows: &Vec<serde_json::Value>) -> (r: i64)
    ensures
        r == reported_count(jsons(rows@)),
{
    if rows.len() == 0 {
        0
    } else {
        json::int_field_or(&rows[0], "total", 0)
    }
}

/// The distance of two numbers.
pub open spec fn distance(a: int, b: int) -> int {
    if a < b {
        b - a
    } else {
        a - b
    }
}

/// The search index holds a number of products that differs by more than 5 %
/// from that of the products on sale, of which there are some.
pub open spec fn diverges(db_count: int, index_count: int) -> bool {
    db_count > 0 && 100 * distance(db_count, index_count) > 5 * db_count
}

/// Whether the number of products in the search index differs by more than 5 %
/// from that of the products on sale. Where none are on sale nothing is said.
pub fn sync_diverges(db_count: i64, index_count: i64) -> (r: bool)
    ensures
        r == diverges(db_count as int, index_count as int),
{
    let a: i128 = db_count as i128;
    let b: i128 = index_count as i128;
    let apart: i128 = if a < b {
        b - a
    } else {
        a - b
    };
    a > 0 && 100 * apart > 5 * a
}

/// What to do about a failed update before its product is looked up.
#[derive(Debug, Clone, Copy, PartialEq, Eq)]
pub enum Triage {
    /// It names no product: it is resolved as it is.
    Discard,
    /// It was tried too often: it is resolved and marked as given up.
    GiveUp,
    /// Its product is looked up.
    LookUp,
}

/// The attempts that were made, none where the failure does not say.
pub open spec fn attempts_made(failure: Json) -> u64 {
    json::nat_at_or(failure, fields::RETRY_COUNT@, 0)
}

/// What to do about a failed update before its product is looked up.
pub open spec fn triage_of(failure: Json) -> Triage {
    if json::text_or_empty(failure, fields::PRODUCT_ID@).len() == 0 {
        Triage::Discard
    } else if attempts_made(failure) >= rules::MEILISEARCH_DLQ_MAX_RETRIES {
        Triage::GiveUp
    } else {
        Triage::LookUp
    }
}

/// What to do about a failed update before its product is looked up.
pub fn triage(failure: &serde_json::Value) -> (r: Triage)
    ensures
        r == triage_of(json_of(*failure)),
{
    if json::text_field_or_empty(failure, fields::PRODUCT_ID).is_empty() {
        return Triage::Discard;
    }
    let attempts: u64 = json::nat_field_or(failure, fields::RETRY_COUNT, 0);
    if attempts >= rules::MEILISEARCH_DLQ_MAX_RETRIES {
        Triage::GiveUp
    } else {
        Triage::LookUp
    }
}

/// What a resolved failure is marked with.
#[derive(Debug, Clone, Copy, PartialEq, Eq)]
pub struct Resolution {
    pub resolved: bool,
    /// Marked where the failure was given up.
    pub max_retries_exceeded: bool,
    /// Whether the instant of the change is noted.
    pub stamped: bool,
    /// Whether the product was indexed again.
    pub reindexed: bool,
}

/// The product is on sale.
pub open spec fn is_active(product: Option<Json>) -> bool {
    match product {
        Some(p) => json::text_at(p, fields::LIFECYCLE_STATUS@) == Some("active"@),
        None => false,
    }
}

/// How a failed update is resolved, where `product` is its product, if found.
/// Every failure is resolved; a product that is on sale is indexed again.
pub open spec fn resolution(failure: Json, product: Option<Json>) -> Resolution {
    let t = triage_of(failure);
    Resolution {
        resolved: true,
        max_retries_exceeded: t == Triage::GiveUp,
        stamped: t != Triage::Discard,
        reindexed: t == Triage::LookUp && is_active(product),
    }
}

/// How a failed update is resolved, where `product` is its product, if found.
pub fn resolve(failure: &serde_json::Value, product: Option<&serde_json::Value>) -> (r: Resolution)
    ensures
        r == resolution(
            json_of(*failure),
            match product {
                Some(p) => Some(json_of(*p)),
                None => None,
            },
        ),
{
    match triage(failure) {
        Triage::Discard => Resolution {
            resolved: true,
            max_retries_exceeded: false,
            stamped: false,
            reindexed: false,
        },
        Triage::GiveUp => Resolution {
            resolved: true,
            max_retries_exceeded: true,
            stamped: true,
            reindexed: false,
        },
        Triage::LookUp => {
            let active = match product {
                Some(p) => match json::text_field(p, fields::LIFECYCLE_STATUS) {
                    Some(s) => text::same(s, "active"),
                    None => false,
                },
                None => false,
            };
            Resolution {
                resolved: true,
                max_retries_exceeded: false,
                stamped: true,
                reindexed: active,
            }
        },
    }
}

/// Every failure is resolved, and one that was given up is never indexed.
pub proof fn law_every_failure_resolved(failure: Json, product: Option<Json>)
    ensures
        resolution(failure, product).resolved,
        resolution(failure, product).max_retries_exceeded ==> !resolution(
            failure,
            product,
        ).reindexed,
{
}

/// A failure without a product is dropped as it is, one tried three times or
/// more is given up, and any other is looked up. Its product is indexed again
/// exactly where it is looked up and on sale.
pub proof fn law_failures_settled(failure: Json, product: Option<Json>)
    ensures
        ({
            let named = json::text_or_empty(failure, "productId"@).len() > 0;
            let tries = json::nat_at_or(failure, "retryCount"@, 0);
            let r = resolution(failure, product);
            &&& triage_of(failure) == Triage::Discard <==> !named
            &&& triage_of(failure) == Triage::GiveUp <==> named && tries >= 3
            &&& triage_of(failure) == Triage::LookUp <==> named && tries < 3
            &&& r.max_retries_exceeded <==> named && tries >= 3
            &&& r.stamped <==> named
            &&& r.reindexed <==> named && tries < 3 && (product matches Some(p) && json::text_at(
                p,
                "lifecycleStatus"@,
            ) == Some("active"@))
        }),
{
}

/// The index may differ from the products on sale by a twentieth either way,
/// and by no more; it is not held against it where none are on sale.
pub proof fn law_index_within_a_twentieth(db_count: int, index_count: int)
    ensures
        db_count > 0 ==> (diverges(db_count, index_count) <==> 20 * index_count > 21 * db_count || 20
            * index_count < 19 * db_count),
        db_count <= 0 ==> !diverges(db_count, index_count),
{
}

} // verus!

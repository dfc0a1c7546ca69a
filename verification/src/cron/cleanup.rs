//! Records that have outlived their use.
use vstd::prelude::*;

use crate::cron::search;
use crate::fields;
use crate::json;
use crate::json::{json_of, jsons, Json};
use crate::lists;
use crate::lists::texts;
use crate::rules;
use crate::text;
use crate::text::{decimal, joined, views};
use crate::time;
use crate::time::Timestamp;

verus! {

/// The instant before which finished orders are archived.
pub fn archive_cutoff(now: Timestamp) -> (r: Timestamp)
    requires
        now.of_clock(),
    ensures
        r == now.earlier_by(rules::AUTO_ARCHIVE_DAYS * time::DAY_SECS),
{
    now.minus_seconds(rules::AUTO_ARCHIVE_DAYS * time::DAY_SECS)
}

/// The instant before which rate limit records are stale.
pub fn rate_limit_cutoff(now: Timestamp) -> (r: Timestamp)
    requires
        now.of_clock(),
    ensures
        r == now.earlier_by(rules::RATE_LIMIT_STALE_HOURS * time::HOUR_SECS),
{
    now.minus_seconds(rules::RATE_LIMIT_STALE_HOURS * time::HOUR_SECS)
}

/// The instant before which webhook events are no longer kept.
pub fn webhook_event_cutoff(now: Timestamp) -> (r: Timestamp)
    requires
        now.of_clock(),
    ensures
        r == now.earlier_by(rules::WEBHOOK_EVENT_RETENTION_DAYS * time::DAY_SECS),
{
    now.minus_seconds(rules::WEBHOOK_EVENT_RETENTION_DAYS * time::DAY_SECS)
}

/// The instant before which resolved security alerts are no longer kept.
pub fn security_alert_cutoff(now: Timestamp) -> (r: Timestamp)
    requires
        now.of_clock(),
    ensures
        r == now.earlier_by(rules::SECURITY_ALERT_ARCHIVE_DAYS * time::DAY_SECS),
{
    now.minus_seconds(rules::SECURITY_ALERT_ARCHIVE_DAYS * time::DAY_SECS)
}

/// The instant before which unanswered return requests are escalated.
pub fn return_cutoff(now: Timestamp) -> (r: Timestamp)
    requires
        now.of_clock(),
    ensures
        r == now.earlier_by(rules::RETURN_ESCALATION_DAYS * time::DAY_SECS),
{
    now.minus_seconds(rules::RETURN_ESCALATION_DAYS * time::DAY_SECS)
}

/// What archiving an order changes on it.
pub struct OrderArchive {
    pub archived: bool,
    pub archived_at: String,
    pub updated_at: String,
}

/// The change that archives an order.
pub fn order_archive(now: Timestamp) -> (r: OrderArchive)
    requires
        now.of_clock(),
    ensures
        r.archived,
        r.archived_at@ == time::rfc3339_text(now),
        r.updated_at@ == time::rfc3339_text(now),
{
    let stamp = time::to_rfc3339(now);
    OrderArchive { archived: true, archived_at: stamp.clone(), updated_at: stamp }
}

/// What escalating a return request changes on it.
pub struct ReturnEscalation {
    pub return_status: String,
    pub updated_at: String,
    pub escalated_at: String,
    pub escalation_reason: String,
}

/// The change that escalates a return request.
pub fn return_escalation(now: Timestamp) -> (r: ReturnEscalation)
    requires
        now.of_clock(),
    ensures
        r.return_status@ == "escalated"@,
        r.updated_at@ == time::rfc3339_text(now),
        r.escalated_at@ == time::rfc3339_text(now),
        r.escalation_reason@ == joined(
            seq![
                "No seller response after "@,
                decimal(rules::RETURN_ESCALATION_DAYS as nat),
                " days"@,
            ],
        ),
{
    let days = text::decimal_text(rules::RETURN_ESCALATION_DAYS as u128);
    let parts = ["No seller response after ", days.as_str(), " days"];
    let reason = text::join(&parts);
    assert(views(parts@) =~= seq![
        "No seller response after "@,
        decimal(rules::RETURN_ESCALATION_DAYS as nat),
        " days"@,
    ]);
    let stamp = time::to_rfc3339(now);
    ReturnEscalation {
        return_status: "escalated".to_owned(),
        updated_at: stamp.clone(),
        escalated_at: stamp,
        escalation_reason: reason,
    }
}

/// The identifiers of documents, those without one left out.
pub open spec fn named_ids(docs: Seq<Json>) -> Seq<Seq<char>>
    decreases docs.len(),
{
    if docs.len() == 0 {
        Seq::empty()
    } else {
        let before = named_ids(docs.drop_last());
        let id = json::text_or_empty(docs.last(), fields::ID@);
        if id.len() == 0 {
            before
        } else {
            before.push(id)
        }
    }
}

/// The identifiers of the documents to delete.
pub fn ids_to_delete(docs: &Vec<serde_json::Value>) -> (r: Vec<String>)
    ensures
        texts(r@) == named_ids(jsons(docs@)),
{
    let ghost all = jsons(docs@);
    let mut out: Vec<String> = Vec::new();
    let mut i: usize = 0;
    assert(texts(out@) =~= named_ids(all.take(0)));
    while i < docs.len()
        invariant
            i <= docs@.len(),
            all == jsons(docs@),
            texts(out@) == named_ids(all.take(i as int)),
        decreases docs@.len() - i,
    {
        proof {
            assert(all.take(i + 1).drop_last() =~= all.take(i as int));
            assert(all.take(i + 1).last() == json_of(docs@[i as int]));
        }
        let id = json::text_field_or_empty(&docs[i], fields::ID);
        if !id.is_empty() {
            let ghost before = texts(out@);
            out.push(id.to_owned());
            assert(texts(out@) =~= before.push(id@));
        }
        i = i + 1;
    }
    assert(all.take(i as int) =~= all);
    out
}

// --------------------------------------------------------------------- images

/// `key` is the storage key in the address of an image: what follows the
/// slash before the first `products/`.
pub open spec fn is_image_key(url: Seq<char>, key: Seq<char>) -> bool {
    exists|i: int|
        #[trigger] text::occurs_at(url, "/products/"@, i) && (forall|j: int|
            0 <= j < i ==> !text::occurs_at(url, "/products/"@, j)) && key == url.subrange(
            i + 1,
            url.len() as int,
        )
}

/// The storage key in the address of an image, where it has one.
pub fn image_key(url: &str) -> (r: Option<String>)
    ensures
        match r {
            Some(k) => is_image_key(url@, k@),
            None => !text::occurs(url@, "/products/"@),
        },
{
    let i: usize = text::find(url, "/products/")?;
    proof {
        reveal_strlit("/products/");
    }
    let v = text::chars_of(url);
    let total: usize = v.len();
    Some(text::text_of(&v, i + 1, total))
}

/// `key` is the storage key of an image of the product.
pub open spec fn has_image_key(product: Json, key: Seq<char>) -> bool {
    exists|i: int|
        0 <= i < json::items_at(product, fields::IMAGE_URLS@).len() && (json::as_text(
            #[trigger] json::items_at(product, fields::IMAGE_URLS@)[i],
        ) matches Some(url) && is_image_key(url, key))
}

/// `key` is the storage key of an image of one of the products.
pub open spec fn is_referenced(products: Seq<Json>, key: Seq<char>) -> bool {
    exists|i: int| 0 <= i < products.len() && has_image_key(#[trigger] products[i], key)
}

/// The same address has one key.
proof fn lemma_image_key_unique(url: Seq<char>, a: Seq<char>, b: Seq<char>)
    requires
        is_image_key(url, a),
        is_image_key(url, b),
    ensures
        a == b,
{
    let i = choose|i: int|
        #[trigger] text::occurs_at(url, "/products/"@, i) && (forall|j: int|
            0 <= j < i ==> !text::occurs_at(url, "/products/"@, j)) && a == url.subrange(
            i + 1,
            url.len() as int,
        );
    let k = choose|i: int|
        #[trigger] text::occurs_at(url, "/products/"@, i) && (forall|j: int|
            0 <= j < i ==> !text::occurs_at(url, "/products/"@, j)) && b == url.subrange(
            i + 1,
            url.len() as int,
        );
    assert(i == k);
}

/// Adds the storage keys of a product's images to a list.
fn add_image_keys(out: &mut Vec<String>, product: &serde_json::Value)
    requires
        texts(old(out)@).no_duplicates(),
    ensures
        texts(final(out)@).no_duplicates(),
        forall|k: Seq<char>| #[trigger]
            texts(final(out)@).contains(k) <==> texts(old(out)@).contains(k) || has_image_key(
                json_of(*product),
                k,
            ),
{
    let ghost before = texts(out@);
    let ghost urls = json::items_at(json_of(*product), fields::IMAGE_URLS@);
    if let Some(list) = json::list_field(product, fields::IMAGE_URLS) {
        let mut i: usize = 0;
        while i < list.len()
            invariant
                i <= list@.len(),
                urls == jsons(list@),
                urls == json::items_at(json_of(*product), fields::IMAGE_URLS@),
                before == texts(old(out)@),
                texts(out@).no_duplicates(),
                forall|k: Seq<char>| #[trigger]
                    texts(out@).contains(k) <==> before.contains(k) || exists|j: int|
                        0 <= j < i && (json::as_text(#[trigger] urls[j]) matches Some(url)
                            && is_image_key(url, k)),
            decreases list@.len() - i,
        {
            let ghost mid = texts(out@);
            assert(urls[i as int] == json_of(list@[i as int]));
            if let Some(url) = json::as_str(&list[i]) {
                if let Some(key) = image_key(url) {
                    lists::add_distinct(out, key.as_str());
                    proof {
                        assert forall|k: Seq<char>| #[trigger]
                            texts(out@).contains(k) <==> before.contains(k) || exists|j: int|
                                0 <= j < i + 1 && (json::as_text(#[trigger] urls[j]) matches Some(
                                    u,
                                ) && is_image_key(u, k)) by {
                            lemma_with_distinct(mid, key@, k);
                            if k == key@ {
                                assert(is_image_key(url@, k));
                                assert(json::as_text(urls[i as int]) == Some(url@));
                            } else if is_image_key(url@, k) {
                                lemma_image_key_unique(url@, k, key@);
                            }
                        }
                    }
                } else {
                    assert forall|k: Seq<char>| !is_image_key(url@, k) by {}
                }
            }
            i = i + 1;
        }
    }
}

proof fn lemma_with_distinct(s: Seq<Seq<char>>, x: Seq<char>, k: Seq<char>)
    ensures
        lists::with_distinct(s, x).contains(k) <==> s.contains(k) || k == x,
{
    if s.contains(k) {
        let i = choose|i: int| 0 <= i < s.len() && s[i] == k;
        assert(lists::with_distinct(s, x)[i] == k);
    }
    if k == x && !s.contains(x) {
        assert(lists::with_distinct(s, x)[s.len() as int] == x);
    }
}

/// The storage keys of the images of the products, each once.
pub fn referenced_keys(products: &Vec<serde_json::Value>) -> (r: Vec<String>)
    ensures
        texts(r@).no_duplicates(),
        forall|k: Seq<char>| #[trigger]
            texts(r@).contains(k) <==> is_referenced(jsons(products@), k),
{
    let ghost all = jsons(products@);
    let mut out: Vec<String> = Vec::new();
    let mut i: usize = 0;
    while i < products.len()
        invariant
            i <= products@.len(),
            all == jsons(products@),
            texts(out@).no_duplicates(),
            forall|k: Seq<char>| #[trigger]
                texts(out@).contains(k) <==> exists|j: int|
                    0 <= j < i && has_image_key(#[trigger] all[j], k),
        decreases products@.len() - i,
    {
        add_image_keys(&mut out, &products[i]);
        assert(all[i as int] == json_of(products@[i as int]));
        i = i + 1;
    }
    out
}

// ------------------------------------------------------------ orphaned images

/// Hours for which a stored image is kept whether or not a product uses it.
pub const IMAGE_GRACE_HOURS: i64 = 24;

/// `key` is the storage key of an image of a product that is on sale.
pub open spec fn is_in_use(products: Seq<Json>, key: Seq<char>) -> bool {
    exists|i: int|
        0 <= i < products.len() && search::is_active(Some(#[trigger] products[i]))
            && has_image_key(products[i], key)
}

/// The stored image is one of products, no product on sale uses it, and it was
/// uploaded no less than a day ago.
pub open spec fn is_orphaned(
    products: Seq<Json>,
    key: Seq<char>,
    uploaded: Timestamp,
    now: Timestamp,
) -> bool {
    &&& text::occurs_at(key, "products/"@, 0)
    &&& !is_in_use(products, key)
    &&& time::nanos_between(now, uploaded) >= IMAGE_GRACE_HOURS * time::HOUR_SECS * 1_000_000_000
}

/// Whether `key` is the storage key of an image of the product.
fn uses_image(product: &serde_json::Value, key: &str) -> (r: bool)
    ensures
        r == has_image_key(json_of(*product), key@),
{
    let ghost urls = json::items_at(json_of(*product), fields::IMAGE_URLS@);
    if let Some(list) = json::list_field(product, fields::IMAGE_URLS) {
        let mut i: usize = 0;
        while i < list.len()
            invariant
                i <= list@.len(),
                urls == jsons(list@),
                urls == json::items_at(json_of(*product), fields::IMAGE_URLS@),
                forall|j: int|
                    0 <= j < i ==> !(json::as_text(#[trigger] urls[j]) matches Some(url)
                        && is_image_key(url, key@)),
            decreases list@.len() - i,
        {
            assert(urls[i as int] == json_of(list@[i as int]));
            if let Some(url) = json::as_str(&list[i]) {
                if let Some(k) = image_key(url) {
                    if text::same(k.as_str(), key) {
                        assert(is_image_key(url@, key@));
                        return true;
                    }
                    assert(!is_image_key(url@, key@)) by {
                        if is_image_key(url@, key@) {
                            lemma_image_key_unique(url@, key@, k@);
                        }
                    }
                }
            }
            i = i + 1;
        }
    }
    false
}

/// Whether a stored image can be deleted: no product on sale uses it, and it
/// was uploaded no less than a day ago, so that no upload under way is hit.
pub fn image_is_orphaned(
    products: &Vec<serde_json::Value>,
    key: &str,
    uploaded: Timestamp,
    now: Timestamp,
) -> (r: bool)
    requires
        uploaded.in_calendar(),
        now.of_clock(),
    ensures
        r == is_orphaned(jsons(products@), key@, uploaded, now),
{
    let grace: i128 = IMAGE_GRACE_HOURS as i128 * time::HOUR_SECS as i128 * 1_000_000_000;
    if !text::starts_with(key, "products/") || time::elapsed_nanos(now, uploaded) < grace {
        return false;
    }
    let ghost all = jsons(products@);
    let mut i: usize = 0;
    while i < products.len()
        invariant
            i <= products@.len(),
            all == jsons(products@),
            forall|j: int|
                0 <= j < i ==> !(search::is_active(Some(#[trigger] all[j])) && has_image_key(
                    all[j],
                    key@,
                )),
        decreases products@.len() - i,
    {
        assert(all[i as int] == json_of(products@[i as int]));
        let active = match json::text_field(&products[i], fields::LIFECYCLE_STATUS) {
            Some(s) => text::same(s, "active"),
            None => false,
        };
        if active && uses_image(&products[i], key) {
            return false;
        }
        i = i + 1;
    }
    true
}

/// No image is deleted that a product on sale uses, or that was uploaded
/// within the last day.
pub proof fn law_images_in_use_are_kept(
    products: Seq<Json>,
    key: Seq<char>,
    uploaded: Timestamp,
    now: Timestamp,
)
    requires
        is_in_use(products, key) || time::nanos_between(now, uploaded) < 24 * 3600 * 1_000_000_000,
    ensures
        !is_orphaned(products, key, uploaded, now),
{
}

/// An image can be deleted exactly where it is stored under `products/`, was
/// uploaded no less than 24 hours ago, and no product whose status is `active`
/// has an address with its key.
pub proof fn law_orphaned_means(
    products: Seq<Json>,
    key: Seq<char>,
    uploaded: Timestamp,
    now: Timestamp,
)
    ensures
        is_orphaned(products, key, uploaded, now) <==> {
            &&& text::occurs_at(key, "products/"@, 0)
            &&& time::nanos_between(now, uploaded) >= 24 * 3600 * 1_000_000_000
            &&& forall|i: int|
                0 <= i < products.len() && json::text_at(
                    #[trigger] products[i],
                    "lifecycleStatus"@,
                ) == Some("active"@) ==> !has_image_key(products[i], key)
        },
{
    if is_orphaned(products, key, uploaded, now) {
        assert forall|i: int|
            0 <= i < products.len() && json::text_at(#[trigger] products[i], "lifecycleStatus"@)
                == Some("active"@) implies !has_image_key(products[i], key) by {
            assert(search::is_active(Some(products[i])));
        }
    }
    if is_in_use(products, key) {
        let i = choose|i: int|
            0 <= i < products.len() && search::is_active(Some(#[trigger] products[i]))
                && has_image_key(products[i], key);
        assert(json::text_at(products[i], "lifecycleStatus"@) == Some("active"@));
    }
}

/// The key of an image is what follows the slash before `products/` in its
/// address: the address without what stands before, and it begins with
/// `products/`.
pub proof fn law_image_key_ends_its_address(url: Seq<char>, key: Seq<char>)
    requires
        is_image_key(url, key),
    ensures
        key.len() < url.len(),
        key == url.skip(url.len() - key.len()),
        url[url.len() - key.len() - 1] == '/',
        text::occurs_at(key, "products/"@, 0),
{
    reveal_strlit("/products/");
    reveal_strlit("products/");
    let i = choose|i: int|
        #[trigger] text::occurs_at(url, "/products/"@, i) && (forall|j: int|
            0 <= j < i ==> !text::occurs_at(url, "/products/"@, j)) && key == url.subrange(
            i + 1,
            url.len() as int,
        );
    let found = url.subrange(i, i + "/products/"@.len());
    assert(found == "/products/"@);
    assert(found[0] == url[i]);
    assert(key =~= url.skip(url.len() - key.len()));
    assert(key.subrange(0, "products/"@.len() as int) =~= "products/"@) by {
        assert forall|k: int| 0 <= k < "products/"@.len() implies key[k] == "products/"@[k] by {
            assert(found[k + 1] == url[i + k + 1]);
            assert("/products/"@[k + 1] == "products/"@[k]);
        }
    }
}

/// The documents to delete are those with an identifier, in order.
pub proof fn law_deleted_by_identifier(docs: Seq<Json>, doc: Json)
    ensures
        ({
            let id = json::text_or_empty(doc, "id"@);
            named_ids(docs.push(doc)) == if id.len() > 0 {
                named_ids(docs).push(id)
            } else {
                named_ids(docs)
            }
        }),
        named_ids(Seq::empty()).len() == 0,
{
    assert(docs.push(doc).drop_last() =~= docs);
}

} // verus!

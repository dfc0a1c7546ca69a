use ob_handlers::cron::carts::{cart_reminder, may_remind};
use ob_handlers::cron::cleanup::{
    archive_cutoff, ids_to_delete, image_is_orphaned, image_key, order_archive, rate_limit_cutoff, referenced_keys,
    return_cutoff, return_escalation, security_alert_cutoff, webhook_event_cutoff,
};
use ob_handlers::cron::expiry::{
    authorization_cutoff, expiry_event, order_expiry, order_key, payment_to_cancel, stock_returns,
};
use ob_handlers::cron::lock::{failure_record, lock_is_held, released_lock, taken_lock};
use ob_handlers::cron::metrics::{average_delivery_hours, breaches, seller_counts, Breach, SellerStats};
use ob_handlers::cron::notices::{escalation_notice, expiry_notice};
use ob_handlers::cron::notifications::{delivery_of, delivery_update};
use ob_handlers::cron::payouts::{
    next_payout_step, payout_records, payout_status, seller_totals, split_amount,
    stripe_provider_enabled, PayoutStatus, PayoutStep,
};
use ob_handlers::cron::recommendations::{co_occurrences, co_purchase_recommendations};
use ob_handlers::cron::search::{active_product_count, resolve, sync_diverges, triage, Triage};
use ob_handlers::cron::stock::{low_stock_digests, low_stock_warning, runs_low, was_alerted};
use ob_handlers::cron::subscriptions::{
    needs_reminder, reminder_days, reminder_field, reminder_window, renewal_reminder,
    subscription_end,
};
use ob_handlers::cron::trending::{plan_trending, stale_entries};
use ob_handlers::cron::{
    co_purchase_window_start, i64_field, job_schedules, metrics_window_start, normalize_record_id,
    trending_window_start, JobSchedule,
};
use ob_handlers::rules;
use ob_handlers::time::Timestamp;
use std::collections::HashMap;

// 2026-03-10T12:00:00Z
const NOW: Timestamp = Timestamp { secs: 1_773_144_000, nanos: 0 };
const STAMP: &str = "2026-03-10T12:00:00+00:00";
const HOUR: i64 = 3600;
const DAY: i64 = 86_400;

fn json(s: &str) -> serde_json::Value {
    serde_json::from_str(s).unwrap()
}

fn after(secs: i64) -> Timestamp {
    Timestamp { secs: NOW.secs + secs, nanos: 0 }
}

fn register_cron_jobs() -> Vec<JobSchedule> {
    job_schedules()
}

#[test]
fn test_register_cron_jobs_count() {
    let jobs = register_cron_jobs();
    assert_eq!(jobs.len(), 18, "Should register exactly 18 cron jobs");
}

#[test]
fn test_cron_job_names_unique() {
    let jobs = register_cron_jobs();
    let names: Vec<&str> = jobs.iter().map(|j| j.name).collect();
    let unique: std::collections::HashSet<&str> = names.iter().copied().collect();
    assert_eq!(
        names.len(),
        unique.len(),
        "All cron job names must be unique"
    );
}

#[test]
fn test_cron_schedules_valid() {
    let jobs = register_cron_jobs();
    for job in &jobs {
        let parts: Vec<&str> = job.schedule.split_whitespace().collect();
        assert_eq!(
            parts.len(),
            5,
            "Cron schedule for '{}' should have 5 fields, got: '{}'",
            job.name,
            job.schedule
        );
    }
}

#[test]
fn test_seller_stats_default() {
    let stats = SellerStats::default();
    assert_eq!(stats.total_items, 0);
    assert_eq!(stats.disputed_orders, 0);
    assert_eq!(stats.refunded_items, 0);
    assert_eq!(stats.cancelled_items, 0);
}

#[test]
fn test_business_rules_constants_used() {
    assert_eq!(rules::AUTO_ARCHIVE_DAYS, 30);
    assert_eq!(rules::AUTHORIZATION_EXPIRY_DAYS, 6);
    assert_eq!(rules::RATE_LIMIT_STALE_HOURS, 2);
    assert_eq!(rules::WEBHOOK_EVENT_RETENTION_DAYS, 7);
    assert_eq!(rules::SECURITY_ALERT_ARCHIVE_DAYS, 90);
    assert_eq!(rules::MEILISEARCH_DLQ_MAX_RETRIES, 3);
    assert_eq!(rules::LOW_STOCK_ALERT_COOLDOWN_HOURS, 23);
    assert_eq!(rules::ABANDONED_CART_HOURS, 24);
    assert_eq!(rules::ABANDONED_CART_COOLDOWN_HOURS, 72);
    assert_eq!(rules::RETURN_ESCALATION_DAYS, 7);
    assert_eq!(rules::TRENDING_WINDOW_HOURS, 24);
}

#[test]
fn test_normalize_record_id_with_prefix() {
    assert_eq!(normalize_record_id("orders:abc123"), "abc123");
    assert_eq!(normalize_record_id("abc123"), "abc123");
    assert_eq!(normalize_record_id("a:b:c"), "b:c");
}

#[test]
fn test_co_purchase_pairs_logic() {
    // Test the co-occurrence counting logic in isolation
    // Given orders: [{A, B}, {A, C}, {A, B, C}]
    // Expected: A-B: 2, A-C: 2, B-C: 1
    let orders = vec![vec!["A", "B"], vec!["A", "C"], vec!["A", "B", "C"]];

    let mut co_occurrence: HashMap<&str, HashMap<&str, u32>> = HashMap::new();
    for product_ids in &orders {
        for i in 0..product_ids.len() {
            for j in (i + 1)..product_ids.len() {
                let a = product_ids[i];
                let b = product_ids[j];
                *co_occurrence.entry(a).or_default().entry(b).or_default() += 1;
                *co_occurrence.entry(b).or_default().entry(a).or_default() += 1;
            }
        }
    }

    assert_eq!(co_occurrence["A"]["B"], 2);
    assert_eq!(co_occurrence["B"]["A"], 2);
    assert_eq!(co_occurrence["A"]["C"], 2);
    assert_eq!(co_occurrence["C"]["A"], 2);
    assert_eq!(co_occurrence["B"]["C"], 1);
    assert_eq!(co_occurrence["C"]["B"], 1);
}

#[test]
fn locks_keep_others_out_until_they_expire() {
    let lock = taken_lock("job", NOW);
    assert_eq!(lock.locked_at, STAMP);
    assert_eq!(lock.locked_by, "cron_job");
    assert_eq!(lock.status, "running");
    let doc = json(&format!(r#"{{"lockedAt": "{}", "status": "{}"}}"#, lock.locked_at, lock.status));
    assert!(lock_is_held(&doc, NOW, 30));
    assert!(lock_is_held(&doc, after(30 * 60 - 1), 30));
    assert!(!lock_is_held(&doc, after(30 * 60), 30));
    let done = released_lock(NOW);
    assert_eq!((done.status.as_str(), done.completed_at.as_str()), ("completed", STAMP));
    let doc = json(&format!(r#"{{"lockedAt": "{STAMP}", "status": "{}"}}"#, done.status));
    assert!(!lock_is_held(&doc, NOW, 30));
    assert!(!lock_is_held(&serde_json::Value::Null, NOW, 30));
    assert!(!lock_is_held(&json(r#"{"lockedAt": "soon", "status": "running"}"#), NOW, 30));
}

#[test]
fn failures_are_recorded_up_to_a_length() {
    let r = failure_record("job", "broken", NOW);
    assert_eq!((r.job_name.as_str(), r.error_message.as_str()), ("job", "broken"));
    assert_eq!(r.created_at, STAMP);
    let r = failure_record("job", &"e".repeat(2500), NOW);
    assert_eq!(r.error_message.len(), 2000);
}

#[test]
fn stripe_is_in_use_unless_switched_off() {
    for (doc, expected) in [
        ("null", true),
        ("{}", true),
        (r#"{"providers": [{"name": "paypal", "enabled": false}]}"#, true),
        (r#"{"providers": [{"name": "stripe", "enabled": false}]}"#, false),
        (r#"{"providers": [{"name": "stripe"}, {"name": "stripe", "enabled": false}]}"#, true),
        (r#"{"providers": [{}, {"name": "stripe", "enabled": true}]}"#, true),
    ] {
        assert_eq!(stripe_provider_enabled(&json(doc)), expected, "{doc}");
    }
}

#[test]
fn paying_out_asks_and_decides_in_order() {
    let order = json(r#"{"paymentIntentId": "pi"}"#);
    assert_eq!(next_payout_step(&json("{}"), None, None), PayoutStep::Skip);
    assert_eq!(next_payout_step(&order, None, None), PayoutStep::CountDisputes);
    assert_eq!(next_payout_step(&order, Some(1), None), PayoutStep::Skip);
    assert_eq!(next_payout_step(&order, Some(0), None), PayoutStep::CountReturns);
    assert_eq!(next_payout_step(&order, Some(0), Some(2)), PayoutStep::Skip);
    assert_eq!(next_payout_step(&order, Some(0), Some(0)), PayoutStep::Pay);
}

#[test]
fn payouts_share_the_fee() {
    let order = json(
        r#"{"platformFeeCents": 100, "subtotalCents": 3000, "items": [
            {"status": "delivered", "sellerId": "a", "priceCents": 500, "quantity": 2},
            {"status": "shipped", "sellerId": "c", "priceCents": 900},
            {"status": "delivered", "sellerId": "b", "priceCents": 1500},
            {"status": "delivered", "sellerId": "a", "priceCents": 500}
        ]}"#,
    );
    let v = payout_records(&order, "o1", NOW).unwrap();
    assert_eq!(v.len(), 2);
    assert_eq!(v[0].id, "o1_a");
    assert_eq!(v[0].amount_cents, 1500);
    assert_eq!((v[0].platform_fee_cents, v[0].net_amount_cents), (50, 1450));
    assert_eq!((v[1].seller_id.as_str(), v[1].amount_cents), ("b", 1500));
    assert_eq!((v[1].order_id.as_str(), v[1].status.as_str()), ("o1", "completed"));
    assert!(v[1].auto_captured);
    assert_eq!((v[1].payout_date.as_str(), v[1].created_at.as_str()), (STAMP, STAMP));
    let total: i64 = v.iter().map(|p| p.amount_cents).sum();
    assert_eq!(total, 3000);
}

#[test]
fn fee_shares_round_to_the_cent() {
    assert_eq!(split_amount(1000, 100, 3000), Some((33, 967)));
    assert_eq!(split_amount(2000, 100, 3000), Some((67, 1933)));
    assert_eq!(split_amount(500, 7, 1000), Some((4, 496)));
    assert_eq!(split_amount(3000, 100, 3000), Some((100, 2900)));
    assert_eq!(split_amount(-1000, 100, 3000), Some((-32, -968)));
    assert_eq!(split_amount(i64::MAX, 2, 1), None);
}

#[test]
fn amounts_that_do_not_fit_are_told() {
    let order = json(
        r#"{"items": [{"status": "delivered", "priceCents": 9223372036854775807, "quantity": 2}]}"#,
    );
    assert!(seller_totals(&order).is_none());
    assert!(payout_records(&order, "o", NOW).is_none());
    assert!(seller_totals(&json("{}")).unwrap().is_empty());
}

#[test]
fn payout_statuses() {
    assert_eq!(payout_status(2, 2), PayoutStatus::Completed);
    assert_eq!(payout_status(2, 1), PayoutStatus::Partial);
    assert_eq!(payout_status(2, 0), PayoutStatus::Failed);
    assert_eq!(payout_status(0, 0), PayoutStatus::Failed);
    assert_eq!(PayoutStatus::Completed.as_str(), "completed");
    assert_eq!(PayoutStatus::Partial.as_str(), "partial");
    assert_eq!(PayoutStatus::Failed.as_str(), "failed");
}

#[test]
fn expired_orders_give_stock_back_once() {
    let doc = |restored: &str| {
        json(&format!(
            r#"{{"id": "orders:o1", "userId": "u", "paymentIntentId": "pi"{restored}, "items": [
                {{"productId": "p1", "quantity": 3}},
                {{"productId": "p2"}},
                {{"productId": "p3", "isDigital": true, "quantity": 2}},
                {{"productId": "", "quantity": 2}},
                {{"quantity": 2}},
                {{"productId": "p4", "quantity": 0}},
                {{"productId": "p5", "quantity": -1}}
            ]}}"#
        ))
    };
    let order = doc("");
    let v: Vec<(String, i64)> =
        stock_returns(&order).into_iter().map(|r| (r.product_id, r.quantity)).collect();
    assert_eq!(v, vec![("p1".to_string(), 3), ("p2".to_string(), 1)]);
    assert!(stock_returns(&doc(r#", "stockRestored": true"#)).is_empty());
    assert_eq!(payment_to_cancel(&order), Some("pi"));
    assert_eq!(payment_to_cancel(&json("{}")), None);
    assert_eq!(order_key(&order), "o1");
    let u = order_expiry(NOW);
    assert_eq!((u.order_status.as_str(), u.payment_status.as_str()), ("expired", "cancelled"));
    assert_eq!(u.cancellation_reason, "authorization_expired");
    assert!(u.stock_restored);
    let e = expiry_event(&order, NOW);
    assert_eq!((e.order_id.as_str(), e.user_id.as_str()), ("orders:o1", "u"));
    assert_eq!(e.event_type, "authorization_expired");
    assert!(e.message.starts_with("Payment authorization expired"));
}

#[test]
fn cutoffs_lie_as_far_back_as_they_should() {
    assert_eq!(authorization_cutoff(NOW), after(-6 * DAY));
    assert_eq!(archive_cutoff(NOW), after(-30 * DAY));
    assert_eq!(rate_limit_cutoff(NOW), after(-2 * HOUR));
    assert_eq!(webhook_event_cutoff(NOW), after(-7 * DAY));
    assert_eq!(security_alert_cutoff(NOW), after(-90 * DAY));
    assert_eq!(return_cutoff(NOW), after(-7 * DAY));
    assert_eq!(metrics_window_start(NOW), after(-7 * DAY));
    assert_eq!(trending_window_start(NOW), after(-24 * HOUR));
    assert_eq!(co_purchase_window_start(NOW), after(-90 * DAY));
}

#[test]
fn archives_and_escalations() {
    let a = order_archive(NOW);
    assert!(a.archived);
    assert_eq!((a.archived_at.as_str(), a.updated_at.as_str()), (STAMP, STAMP));
    let e = return_escalation(NOW);
    assert_eq!(e.return_status, "escalated");
    assert_eq!(e.escalation_reason, "No seller response after 7 days");
    assert_eq!((e.escalated_at.as_str(), e.updated_at.as_str()), (STAMP, STAMP));
}

#[test]
fn records_without_identifier_are_not_deleted() {
    let docs = vec![json(r#"{"id": "a"}"#), json("{}"), json(r#"{"id": ""}"#), json(r#"{"id": "b"}"#)];
    assert_eq!(ids_to_delete(&docs), vec!["a".to_string(), "b".to_string()]);
}

#[test]
fn image_keys_are_collected_once() {
    assert_eq!(
        image_key("https://cdn/x/products/1/products/a.png").as_deref(),
        Some("products/1/products/a.png")
    );
    assert_eq!(image_key("https://cdn/products"), None);
    let products = vec![
        json(r#"{"imageUrls": ["https://c/products/a", "https://d/products/a", 5, "x"]}"#),
        json(r#"{"imageUrls": "https://c/products/z"}"#),
        json(r#"{"imageUrls": ["https://c/products/b"]}"#),
    ];
    assert_eq!(
        referenced_keys(&products),
        vec!["products/a".to_string(), "products/b".to_string()]
    );
}

#[test]
fn failed_index_updates_are_resolved() {
    let lost = json(r#"{"retryCount": 5}"#);
    let spent = json(r#"{"productId": "p", "retryCount": 3}"#);
    let open = json(r#"{"productId": "p", "retryCount": 2}"#);
    assert_eq!(triage(&lost), Triage::Discard);
    assert_eq!(triage(&spent), Triage::GiveUp);
    assert_eq!(triage(&open), Triage::LookUp);
    assert_eq!(triage(&json(r#"{"productId": "p", "retryCount": 4294967296}"#)), Triage::GiveUp);
    let active = json(r#"{"lifecycleStatus": "active"}"#);
    let r = resolve(&open, Some(&active));
    assert!(r.resolved && r.reindexed && r.stamped && !r.max_retries_exceeded);
    let r = resolve(&open, Some(&json("{}")));
    assert!(r.resolved && !r.reindexed && r.stamped);
    assert!(!resolve(&open, None).reindexed);
    let r = resolve(&spent, Some(&active));
    assert!(r.resolved && r.max_retries_exceeded && !r.reindexed);
    let r = resolve(&lost, None);
    assert!(r.resolved && !r.stamped);
    assert_eq!(active_product_count(&vec![json(r#"{"total": 12}"#)]), 12);
    assert_eq!(active_product_count(&vec![]), 0);
}

fn product(stock: i64, threshold: &str, extra: &str) -> serde_json::Value {
    json(&format!(
        r#"{{"id": "p", "sellerId": "s", "stockQuantity": {stock}, "inventory": {{{threshold}}}{extra}}}"#
    ))
}

#[test]
fn products_run_low() {
    let t = r#""lowStockThreshold": 3"#;
    assert!(runs_low(&product(3, t, "")));
    assert!(!runs_low(&product(4, t, "")));
    assert!(!runs_low(&product(0, r#""lowStockThreshold": 0"#, "")));
    assert!(!runs_low(&product(1, r#""lowStockThreshold": 3, "trackQuantity": false"#, "")));
    assert!(runs_low(&product(5, "", "")));
    assert!(!runs_low(&product(6, "", "")));
    assert!(!runs_low(&json(r#"{"stockQuantity": 1}"#)));
    let warned = |at: &str| format!(r#", "lastLowStockAlertAt": "{at}""#);
    assert!(was_alerted(&product(1, t, &warned("2026-03-09T13:00:01Z")), NOW));
    assert!(!was_alerted(&product(1, t, &warned("2026-03-09T13:00:00Z")), NOW));
    assert!(!was_alerted(&product(1, t, &warned("never")), NOW));
    assert!(!was_alerted(&product(1, t, ""), NOW));
}

#[test]
fn sellers_get_one_digest_each() {
    let p = |id: &str, seller: &str, stock: i64, extra: &str| {
        json(&format!(
            r#"{{"id": "{id}", "name": "N{id}", "sellerId": "{seller}", "stockQuantity": {stock}{extra}}}"#
        ))
    };
    let told = r#", "lastLowStockAlertAt": "2026-03-10T00:00:00Z""#;
    let products = vec![
        p("1", "a", 2, ""),
        p("2", "b", 1, ""),
        p("3", "a", 9, ""),
        p("4", "a", 5, ""),
        p("5", "c", 1, ""),
        p("6", "c", 99, told),
        p("7", "", 1, ""),
    ];
    let digests = low_stock_digests(&products, NOW);
    let seen: Vec<(&str, Vec<usize>)> =
        digests.iter().map(|d| (d.seller_id.as_str(), d.positions.clone())).collect();
    assert_eq!(seen, vec![("a", vec![0, 3]), ("b", vec![1])]);
    let later = low_stock_digests(&products, after(11 * HOUR));
    assert_eq!(later.len(), 3);
    assert_eq!((later[2].seller_id.as_str(), later[2].positions.clone()), ("c", vec![4]));

    let at = &digests[0].positions;
    assert!(low_stock_warning(&products, at, None).is_none());
    assert!(low_stock_warning(&products, at, Some(&json(r#"{"email": "s@x"}"#))).is_none());
    let blank = json(r#"{"email": "", "emailConsent": true}"#);
    assert!(low_stock_warning(&products, at, Some(&blank)).is_none());
    let seller = json(r#"{"email": "s@x", "emailConsent": true, "preferredLanguage": "fr"}"#);
    let a = low_stock_warning(&products, at, Some(&seller)).unwrap();
    assert_eq!(a.subject, "[Origna] Alerte de stock bas : N1, N4");
    assert_eq!((a.email.as_str(), a.lang.as_str()), ("s@x", "fr"));
    assert_eq!(a.product_ids, vec!["1", "4"]);
    let lines: Vec<(&str, u32)> =
        a.lines.iter().map(|l| (l.product_name.as_str(), l.stock)).collect();
    assert_eq!(lines, vec![("N1", 2), ("N4", 5)]);
}

#[test]
fn stock_in_a_digest_is_bounded() {
    let seller = json(r#"{"email": "s@x", "emailConsent": true}"#);
    let left = |stock: i64| {
        let products = vec![json(&format!(r#"{{"stockQuantity": {stock}}}"#))];
        let a = low_stock_warning(&products, &vec![0], Some(&seller)).unwrap();
        assert_eq!(a.subject, "[Origna] Low stock alert: Your product");
        a.lines[0].stock
    };
    assert_eq!(left(-3), 0);
    assert_eq!(left(7), 7);
    assert_eq!(left(4294967296), u32::MAX);
}

#[test]
fn notices_go_to_users_with_an_address() {
    let request = json(r#"{"id": "r1"}"#);
    assert!(escalation_notice(&request, None).is_none());
    assert!(escalation_notice(&request, Some(&json("{}"))).is_none());
    let n = escalation_notice(&request, Some(&json(r#"{"email": "s@x"}"#))).unwrap();
    assert_eq!((n.email.as_str(), n.lang.as_str()), ("s@x", "en"));
    assert_eq!(n.subject, "[Origna] Return request escalated: r1");
    assert_eq!(
        n.body,
        "A return request was flagged for admin review: no seller response after 7 days."
    );
    let user = json(r#"{"email": "u@x", "preferredLanguage": "fr"}"#);
    let n = expiry_notice("o1", Some(&user)).unwrap();
    assert_eq!(n.subject, "[Origna] Commande annulée : o1");
    assert_eq!(n.lang, "fr");
    assert!(n.body.starts_with("L'autorisation de paiement a expiré"));
    assert!(expiry_notice("o1", Some(&json(r#"{"email": ""}"#))).is_none());
}

#[test]
fn delivery_times_are_averaged() {
    let order = |seller: &str, made: &str, delivered: &str| {
        json(&format!(
            r#"{{"createdAt": "{made}", "deliveredAt": "{delivered}", "items": [{{"sellerId": "{seller}"}}, {{"sellerId": "{seller}"}}]}}"#
        ))
    };
    let orders = vec![
        order("a", "2026-03-01T00:00:00Z", "2026-03-02T00:00:00Z"),
        order("a", "2026-03-01T00:00:00Z", "2026-03-02T01:59:00Z"),
        order("b", "2026-03-01T00:00:00Z", "2026-03-01T05:00:00Z"),
        order("a", "2026-03-01T00:00:00Z", ""),
    ];
    assert_eq!(average_delivery_hours(&orders, "a"), Some(24));
    assert_eq!(average_delivery_hours(&orders, "b"), Some(5));
    assert_eq!(average_delivery_hours(&orders, "c"), None);
    assert_eq!(average_delivery_hours(&vec![], "a"), None);
}

#[test]
fn carts_are_reminded_of() {
    let user = |extra: &str| json(&format!(r#"{{"email": "u@x", "emailConsent": true{extra}}}"#));
    assert!(may_remind(&user(""), NOW));
    assert!(!may_remind(&json(r#"{"email": "u@x"}"#), NOW));
    assert!(!may_remind(&json(r#"{"emailConsent": true}"#), NOW));
    let at = |key: &str, t: &str| user(&format!(r#", "{key}": "{t}""#));
    assert!(!may_remind(&at("lastCartAbandonEmailAt", "2026-03-07T12:00:01Z"), NOW));
    assert!(may_remind(&at("lastCartAbandonEmailAt", "2026-03-07T12:00:00Z"), NOW));
    assert!(!may_remind(&at("lastCheckoutTimestamp", "2026-03-09T12:00:01Z"), NOW));
    assert!(may_remind(&at("lastCheckoutTimestamp", "2026-03-09T12:00:00Z"), NOW));
    let cart: Vec<serde_json::Value> = ["a", "b", "c", "d", "e", "f"]
        .iter()
        .map(|n| json(&format!(r#"{{"name": "{n}"}}"#)))
        .collect();
    let m = cart_reminder(&user(r#", "id": "u1", "language": "fr""#), &cart).unwrap();
    assert_eq!(m.items.len(), 5);
    assert_eq!(m.items[4].name, "e");
    assert_eq!(m.subject, "Votre panier vous attend — Origna");
    assert_eq!((m.user_id.as_str(), m.buyer_name.as_str()), ("u1", "there"));
    let m = cart_reminder(&user(""), &vec![json("{}"), json(r#"{"name": "x"}"#)]).unwrap();
    assert_eq!(m.items.len(), 1);
    assert_eq!(m.subject, "You left something in your cart — Origna");
    assert!(cart_reminder(&user(""), &vec![json("{}")]).is_none());
    assert!(cart_reminder(&user(""), &vec![]).is_none());
}

#[test]
fn sellers_are_measured() {
    let orders = vec![
        json(
            r#"{"hasDispute": true, "items": [
                {"sellerId": "a", "status": "refunded"}, {"sellerId": "b"}, {"sellerId": ""}
            ]}"#,
        ),
        json(r#"{"orderStatus": "cancelled", "items": [{"sellerId": "a"}, {"sellerId": "a"}]}"#),
        json("{}"),
    ];
    let v = seller_counts(&orders).unwrap();
    assert_eq!(v.len(), 2);
    assert_eq!(v[0].seller_id, "a");
    assert_eq!(
        v[0].stats,
        SellerStats { total_items: 3, disputed_orders: 1, refunded_items: 1, cancelled_items: 2 }
    );
    assert_eq!(v[1].seller_id, "b");
    assert_eq!(v[1].stats.total_items, 1);
    assert_eq!(v[1].stats.disputed_orders, 1);
}

#[test]
fn rates_breach_above_their_limit() {
    let s = |t, d, r, c| SellerStats {
        total_items: t,
        disputed_orders: d,
        refunded_items: r,
        cancelled_items: c,
    };
    assert!(breaches(s(0, 0, 0, 0)).is_empty());
    assert!(breaches(s(100, 5, 10, 15)).is_empty());
    assert_eq!(breaches(s(100, 6, 10, 15)), vec![Breach::Disputes]);
    assert_eq!(breaches(s(100, 5, 11, 16)), vec![Breach::Refunds, Breach::Cancellations]);
    for total in 1..200u32 {
        for part in 0..=total {
            let rate = part as f64 / total as f64;
            let list = breaches(s(total, part, part, part));
            assert_eq!(list.contains(&Breach::Disputes), rate > 0.05);
            assert_eq!(list.contains(&Breach::Refunds), rate > 0.10);
            assert_eq!(list.contains(&Breach::Cancellations), rate > 0.15);
        }
    }
}

#[test]
fn trending_products_are_planned() {
    let products: Vec<serde_json::Value> = (0..25)
        .map(|i| json(&format!(r#"{{"id": "p{i}", "isTrending": {}}}"#, i < 3)))
        .collect();
    let mut ranks: Vec<Option<u64>> = (0..25).map(|i| Some(i as u64 + 1)).collect();
    ranks[24] = None;
    ranks[10] = Some(20);
    let plan = plan_trending(&products, &ranks);
    assert_eq!(plan.marked.len(), 20);
    assert_eq!(plan.marked[0].id, "p23");
    let tied: Vec<&str> =
        plan.marked.iter().filter(|s| s.score == 20).map(|s| s.id.as_str()).collect();
    assert_eq!(tied, vec!["p10", "p19"]);
    for w in plan.marked.windows(2) {
        assert!(w[0].score >= w[1].score);
    }
    assert_eq!(plan.cleared, vec!["p0", "p1", "p2"]);
    let few = plan_trending(&products[..2].to_vec(), &vec![Some(1), None]);
    assert_eq!(few.marked.len(), 1);
    assert_eq!(few.cleared, vec!["p1"]);
    let many: Vec<serde_json::Value> =
        (0..60).map(|i| json(&format!(r#"{{"id": "q{i}"}}"#))).collect();
    let ranks: Vec<Option<u64>> = (0..60).map(|i| Some(i as u64 + 1)).collect();
    let plan = plan_trending(&many, &ranks);
    assert_eq!((plan.scored.len(), plan.top.len(), plan.marked.len()), (60, 50, 20));
    assert_eq!((plan.scored[0].id.as_str(), plan.scored[0].score), ("q0", 1));
    assert_eq!((plan.top[0].id.as_str(), plan.top[49].id.as_str()), ("q59", "q10"));
    let plan = plan_trending(&many[..30].to_vec(), &ranks[..30].to_vec());
    assert_eq!((plan.scored.len(), plan.top.len()), (30, 30));
    let listed = vec![json(r#"{"id": "q1"}"#), json(r#"{"id": "gone"}"#), json("{}")];
    assert_eq!(stale_entries(&listed, &plan.top), vec!["gone"]);
}

#[test]
fn subscriptions_end() {
    let e = subscription_end(&json(r#"{"id": "subscriptions:u1"}"#), NOW).unwrap();
    assert_eq!((e.user_id.as_str(), e.status.as_str(), e.is_premium), ("u1", "expired", false));
    assert_eq!(e.updated_at, STAMP);
    assert!(subscription_end(&json("{}"), NOW).is_none());
    assert!(subscription_end(&json(r#"{"id": "subscriptions:"}"#), NOW).is_none());
}

#[test]
fn renewals_are_reminded_of_once() {
    assert_eq!(reminder_days(), vec![7, 1]);
    assert_eq!(reminder_window(NOW, 20_000).0, after(20_000 * DAY - 12 * HOUR));
    let (a, b) = reminder_window(NOW, 7);
    assert_eq!((a, b), (after(7 * DAY - 12 * HOUR), after(7 * DAY + 12 * HOUR)));
    assert_eq!(reminder_field(7), "renewalReminderSentDays7");
    assert!(needs_reminder(&json("{}"), 7));
    assert!(!needs_reminder(&json(r#"{"cancelAtPeriodEnd": true}"#), 7));
    let sent = json(r#"{"renewalReminderSentDays7": true}"#);
    assert!(!needs_reminder(&sent, 7));
    assert!(needs_reminder(&sent, 1));
    let m = renewal_reminder(&json(r#"{"email": "u@x", "name": "Una"}"#), 7).unwrap();
    assert_eq!(m.subject, "Your Origna Premium Renews in 7 Days");
    assert_eq!((m.email.as_str(), m.buyer_name.as_str(), m.lang.as_str()), ("u@x", "Una", "en"));
    let m = renewal_reminder(&json(r#"{"email": "u@x", "language": "fr"}"#), 1).unwrap();
    assert_eq!(m.subject, "Votre Origna Premium se renouvelle dans 1 jour");
    assert_eq!(m.buyer_name, "there");
    assert!(renewal_reminder(&json("{}"), 7).is_none());
}

#[test]
fn notifications_are_delivered_or_given_up() {
    let record = json(
        r#"{"id": "n:x:1", "token": "t", "title": "T", "body": "B", "attempts": 1,
            "data": {"a": "1", "b": 2, "c": "3"}}"#,
    );
    let d = delivery_of(&record).unwrap();
    assert_eq!((d.record_id.as_str(), d.token.as_str(), d.attempts), ("1", "t", 1));
    assert_eq!((d.title.as_str(), d.body.as_str()), ("T", "B"));
    let mut data = d.data.unwrap();
    data.sort();
    assert_eq!(data, vec![("a".into(), "1".into()), ("c".into(), "3".into())]);
    assert!(delivery_of(&json(r#"{"id": "x"}"#)).is_none());
    assert!(delivery_of(&json(r#"{"token": "x"}"#)).is_none());
    let bare = delivery_of(&json(r#"{"id": "x", "token": "t", "data": []}"#)).unwrap();
    assert!(bare.data.is_none());
    assert_eq!((bare.title.as_str(), bare.attempts), ("", 0));
    let u = delivery_update(2, true, NOW);
    assert_eq!(u.status.as_deref(), Some("delivered"));
    assert_eq!((u.attempts, u.delivered_at.as_deref()), (None, Some(STAMP)));
    let u = delivery_update(1, false, NOW);
    assert_eq!((u.status, u.attempts, u.delivered_at), (None, Some(2), None));
    let u = delivery_update(2, false, NOW);
    assert_eq!((u.status.as_deref(), u.attempts), (Some("failed"), Some(3)));
    assert_eq!(u.updated_at, STAMP);
}

fn order_of(ids: &[&str]) -> serde_json::Value {
    let items: Vec<String> =
        ids.iter().map(|i| format!(r#"{{"productId": "{i}"}}"#)).collect();
    json(&format!(r#"{{"items": [{}]}}"#, items.join(",")))
}

#[test]
fn products_bought_together_are_counted() {
    let orders = vec![order_of(&["A", "B"]), order_of(&["A", "C"]), order_of(&["A", "B", "C"])];
    let table = co_occurrences(&orders).unwrap();
    let score = |a: &str, b: &str| {
        let row = table.iter().find(|r| r.product_id == a).unwrap();
        row.partners.iter().find(|p| p.id == b).map(|p| p.score).unwrap_or(0)
    };
    for (a, b, n) in [("A", "B", 2), ("A", "C", 2), ("B", "C", 1)] {
        assert_eq!(score(a, b), n);
        assert_eq!(score(b, a), n);
    }
    let twice = co_occurrences(&vec![order_of(&["A", "A"])]).unwrap();
    assert_eq!(twice[0].partners[0].score, 2);
    assert!(co_occurrences(&vec![order_of(&["A"]), json("{}")]).unwrap().is_empty());
}

#[test]
fn best_partners_are_recommended() {
    let mut orders: Vec<serde_json::Value> = Vec::new();
    for i in 1..=12 {
        for _ in 0..i {
            orders.push(order_of(&["p:0", &format!("q{i}")]));
        }
    }
    let v = co_purchase_recommendations(&orders).unwrap();
    assert_eq!(v.len(), 13);
    let r = v.iter().find(|r| r.product_id == "p:0").unwrap();
    assert_eq!(r.key, "p_0");
    let list: Vec<(String, u64)> = r.items.iter().map(|s| (s.id.clone(), s.score)).collect();
    let expected: Vec<(String, u64)> = (3..=12).rev().map(|i| (format!("q{i}"), i)).collect();
    assert_eq!(list, expected);
}

#[test]
fn jobs_and_their_locks() {
    let jobs = job_schedules();
    let find = |n: &str| *jobs.iter().find(|j| j.name == n).unwrap();
    assert_eq!(find("auto_capture_confirmed_receipts").schedule, "*/5 * * * *");
    assert_eq!(find("drain_pending_notifications").lock_minutes, Some(5));
    assert_eq!(find("monitor_meilisearch_sync").lock_minutes, None);
    assert_eq!(find("compute_co_purchase_recommendations").schedule, "0 3 * * *");
    assert_eq!(i64_field(&json(r#"{"n": 4}"#), "n"), 4);
    assert_eq!(i64_field(&json(r#"{"n": "4"}"#), "n"), 0);
}

#[test]
fn search_index_may_differ_by_a_twentieth() {
    assert!(!sync_diverges(100, 95));
    assert!(!sync_diverges(100, 105));
    assert!(sync_diverges(100, 94));
    assert!(sync_diverges(100, 106));
    assert!(sync_diverges(1, 0));
    assert!(!sync_diverges(0, 500));
    assert!(sync_diverges(i64::MAX, i64::MIN));
}

#[test]
fn images_out_of_use_are_deleted_after_a_day() {
    let product = |status: &str, url: &str| {
        json(&format!(r#"{{"lifecycleStatus": "{status}", "imageUrls": ["{url}"]}}"#))
    };
    let products = vec![
        product("active", "https://cdn.x/products/a.jpg"),
        product("archived", "https://cdn.x/products/b.jpg"),
        json("{}"),
    ];
    let old = after(-24 * HOUR);
    let young = after(-24 * HOUR + 1);
    assert!(!image_is_orphaned(&products, "products/a.jpg", old, NOW));
    assert!(image_is_orphaned(&products, "products/b.jpg", old, NOW));
    assert!(image_is_orphaned(&products, "products/c.jpg", old, NOW));
    assert!(!image_is_orphaned(&products, "products/c.jpg", young, NOW));
    assert!(!image_is_orphaned(&products, "avatars/c.jpg", old, NOW));
    assert!(image_is_orphaned(&vec![], "products/a.jpg", old, NOW));
}

use ob_handlers::email::helpers::{
    build_order_summary, build_order_summary_from_items, build_seller_order_summary,
    checked_order_summary, checked_seller_order_summary, confirmation_subject, item_name,
    item_price_cents, item_quantity, normalize_lang, order_buyer_id, order_items, order_sellers,
    record_key, resolve_buyer_contact, resolve_seller_contact, seller_subject, shipping_lang,
    shipping_subject, spoken_order_number, str_field,
};

fn json(s: &str) -> serde_json::Value {
    serde_json::from_str(s).unwrap()
}

fn sample_order_with_items() -> serde_json::Value {
    json(r#"{
        "id": "orders:order1",
        "buyerId": "buyer1",
        "customerEmail": "buyer@test.com",
        "preferredLanguage": "en",
        "items": [
            {
                "name": "Widget",
                "priceCents": 1500,
                "quantity": 2,
                "sellerId": "seller1"
            },
            {
                "name": "Gadget",
                "priceCents": 3000,
                "quantity": 1,
                "sellerId": "seller2"
            }
        ],
        "subtotalCents": 6000,
        "shippingCostCents": 500,
        "taxAmountCents": 780,
        "totalAmountCents": 7280
    }"#)
}

#[test]
fn test_str_field_basic() {
    let val = json(r#"{"name": "Alice"}"#);
    assert_eq!(str_field(&val, "name"), "Alice");
}

#[test]
fn test_str_field_missing() {
    let val = json(r#"{}"#);
    assert_eq!(str_field(&val, "missing"), "");
}

#[test]
fn test_str_field_wrong_type() {
    let val = json(r#"{"count": 42}"#);
    assert_eq!(str_field(&val, "count"), "");
}

#[test]
fn test_str_field_null_value() {
    let val = json(r#"{"name": null}"#);
    assert_eq!(str_field(&val, "name"), "");
}

#[test]
fn test_record_key_with_prefix() {
    assert_eq!(record_key("users:abc123"), "abc123");
}

#[test]
fn test_record_key_without_prefix() {
    assert_eq!(record_key("abc123"), "abc123");
}

#[test]
fn test_record_key_multiple_colons() {
    assert_eq!(record_key("a:b:c"), "c");
}

#[test]
fn test_record_key_empty() {
    assert_eq!(record_key(""), "");
}

#[test]
fn test_normalize_lang_fr() {
    assert_eq!(normalize_lang("fr"), "fr");
}

#[test]
fn test_normalize_lang_fr_uppercase() {
    assert_eq!(normalize_lang("FR"), "fr");
}

#[test]
fn test_normalize_lang_en() {
    assert_eq!(normalize_lang("en"), "en");
}

#[test]
fn test_normalize_lang_unknown() {
    assert_eq!(normalize_lang("de"), "en");
}

#[test]
fn test_normalize_lang_empty() {
    assert_eq!(normalize_lang(""), "en");
}

#[test]
fn test_order_items_present() {
    let order = sample_order_with_items();
    let items = order_items(&order);
    assert_eq!(items.len(), 2);
}

#[test]
fn test_order_items_missing() {
    let order = json(r#"{"id": "test"}"#);
    let items = order_items(&order);
    assert!(items.is_empty());
}

#[test]
fn test_order_items_wrong_type() {
    let order = json(r#"{"items": "not_an_array"}"#);
    let items = order_items(&order);
    assert!(items.is_empty());
}

#[test]
fn test_item_quantity_u64() {
    let item = json(r#"{"quantity": 5}"#);
    assert_eq!(item_quantity(&item), 5);
}

#[test]
fn test_item_quantity_i64_positive() {
    let item = json(r#"{"quantity": 3}"#);
    assert_eq!(item_quantity(&item), 3);
}

#[test]
fn test_item_quantity_i64_negative() {
    let item = json(r#"{"quantity": -5}"#);
    assert_eq!(item_quantity(&item), 0);
}

#[test]
fn test_item_quantity_missing() {
    let item = json(r#"{}"#);
    assert_eq!(item_quantity(&item), 1);
}

#[test]
fn test_item_quantity_zero() {
    let item = json(r#"{"quantity": 0}"#);
    assert_eq!(item_quantity(&item), 0);
}

#[test]
fn test_item_quantity_string_type() {
    let item = json(r#"{"quantity": "three"}"#);
    assert_eq!(item_quantity(&item), 1);
}

#[test]
fn test_item_price_cents_from_price_cents() {
    let item = json(r#"{"priceCents": 2500}"#);
    assert_eq!(item_price_cents(&item), 2500);
}

#[test]
fn test_item_price_cents_from_price() {
    let item = json(r#"{"price": 1500}"#);
    assert_eq!(item_price_cents(&item), 1500);
}

#[test]
fn test_item_price_cents_prefer_price_cents() {
    let item = json(r#"{"priceCents": 2500, "price": 1500}"#);
    assert_eq!(item_price_cents(&item), 2500);
}

#[test]
fn test_item_price_cents_missing() {
    let item = json(r#"{}"#);
    assert_eq!(item_price_cents(&item), 0);
}

#[test]
fn test_item_name_from_name() {
    let item = json(r#"{"name": "Widget"}"#);
    assert_eq!(item_name(&item), "Widget");
}

#[test]
fn test_item_name_from_title() {
    let item = json(r#"{"name": "Title Widget"}"#);
    assert_eq!(item_name(&item), "Title Widget");
}

#[test]
fn test_item_name_prefer_name_over_title() {
    let item = json(r#"{"name": "Product Name"}"#);
    assert_eq!(item_name(&item), "Product Name");
}

#[test]
fn test_item_name_missing() {
    let item = json(r#"{}"#);
    assert_eq!(item_name(&item), "Item");
}

#[test]
fn test_item_name_empty_string() {
    let item = json(r#"{"name": "  "}"#);
    assert_eq!(item_name(&item), "Item");
}

#[test]
fn test_build_order_summary_full() {
    let order = sample_order_with_items();
    let summary = build_order_summary(&order);
    assert_eq!(summary.order_id, "order1");
    assert_eq!(summary.items.len(), 2);
    assert_eq!(summary.subtotal_cents, 6000);
    assert_eq!(summary.shipping_cost_cents, 500);
    assert_eq!(summary.tax_amount_cents, 780);
    assert_eq!(summary.total_amount_cents, 7280);
}

#[test]
fn test_build_order_summary_no_items() {
    let order = json(r#"{
        "id": "orders:empty",
        "subtotalCents": 0,
        "totalAmountCents": 0
    }"#);
    let summary = build_order_summary(&order);
    assert!(summary.items.is_empty());
    assert_eq!(summary.subtotal_cents, 0);
    assert_eq!(summary.total_amount_cents, 0);
}

#[test]
fn test_build_order_summary_fallback_subtotal() {
    let order = json(r#"{
        "id": "orders:fb",
        "items": [
            {"priceCents": 1000, "quantity": 2}
        ]
    }"#);
    let summary = build_order_summary(&order);
    assert_eq!(summary.subtotal_cents, 2000);
    assert_eq!(summary.total_amount_cents, 2000);
}

#[test]
fn test_build_order_summary_order_id_from_field() {
    let order = json(r#"{
        "orderId": "orders:from_field"
    }"#);
    let summary = build_order_summary(&order);
    assert_eq!(summary.order_id, "from_field");
}

#[test]
fn test_build_order_summary_no_id() {
    let order = json(r#"{}"#);
    let summary = build_order_summary(&order);
    assert_eq!(summary.order_id, "");
}

#[test]
fn test_build_seller_order_summary_found() {
    let order = sample_order_with_items();
    let summary = build_seller_order_summary(&order, "seller1");
    assert!(summary.is_some());
    let s = summary.unwrap();
    assert_eq!(s.items.len(), 1);
    assert_eq!(s.items[0].name, "Widget");
    assert_eq!(s.subtotal_cents, 3000);
    assert_eq!(s.total_amount_cents, 3000);
    assert_eq!(s.shipping_cost_cents, 0);
    assert_eq!(s.tax_amount_cents, 0);
}

#[test]
fn test_build_seller_order_summary_not_found() {
    let order = sample_order_with_items();
    let summary = build_seller_order_summary(&order, "nonexistent");
    assert!(summary.is_none());
}

#[test]
fn test_build_seller_order_summary_no_items() {
    let order = json(r#"{"id": "orders:empty"}"#);
    let summary = build_seller_order_summary(&order, "seller1");
    assert!(summary.is_none());
}

#[test]
fn test_build_seller_order_summary_multiple_items_same_seller() {
    let order = json(r#"{
        "id": "orders:multi",
        "items": [
            {"name": "A", "priceCents": 1000, "quantity": 1, "sellerId": "s1"},
            {"name": "B", "priceCents": 2000, "quantity": 1, "sellerId": "s1"},
            {"name": "C", "priceCents": 500, "quantity": 1, "sellerId": "s2"}
        ]
    }"#);
    let summary = build_seller_order_summary(&order, "s1");
    assert!(summary.is_some());
    let s = summary.unwrap();
    assert_eq!(s.items.len(), 2);
    assert_eq!(s.subtotal_cents, 3000);
}

#[test]
fn test_build_order_summary_from_items_explicit() {
    let order = json(r#"{
        "id": "orders:explicit",
        "subtotalCents": 5000,
        "shippingCostCents": 800,
        "taxAmountCents": 650,
        "totalAmountCents": 6450
    }"#);
    let items =
        vec![json(r#"{"name": "Item1", "priceCents": 5000, "quantity": 1}"#)];
    let summary = build_order_summary_from_items(&order, &items);
    assert_eq!(summary.subtotal_cents, 5000);
    assert_eq!(summary.shipping_cost_cents, 800);
    assert_eq!(summary.tax_amount_cents, 650);
    assert_eq!(summary.total_amount_cents, 6450);
}

fn contact(email: &str, name: &str, lang: &str) -> Option<(String, String, String)> {
    Some((email.into(), name.into(), lang.into()))
}

#[test]
fn keys_and_languages_are_stable() {
    for id in ["users:abc", "abc", "a:b:c", "", "x:"] {
        assert_eq!(record_key(record_key(id)), record_key(id));
    }
    for lang in ["fr", "Fr", "fR", "FR", "fra", "f", "en", "ﬁ"] {
        assert_eq!(normalize_lang(normalize_lang(lang)), normalize_lang(lang));
    }
    assert_eq!(normalize_lang("fR"), "fr");
    assert_eq!(record_key("x:"), "");
}

#[test]
fn large_quantities_are_held_within_u32() {
    assert_eq!(item_quantity(&json(r#"{"quantity": 4294967295}"#)), u32::MAX);
    assert_eq!(item_quantity(&json(r#"{"quantity": 4294967296}"#)), u32::MAX);
    assert_eq!(item_quantity(&json(r#"{"quantity": 18446744073709551615}"#)), u32::MAX);
    assert_eq!(item_quantity(&json(r#"{"quantity": 2.0}"#)), 1);
}

#[test]
fn name_that_is_no_text_is_not_replaced_by_another() {
    assert_eq!(item_name(&json(r#"{"name": 5}"#)), "Item");
    assert_eq!(item_name(&json(r#"{"name": " "}"#)), "Item");
    assert_eq!(item_name(&json(r#"{"name": " x "}"#)), " x ");
}

#[test]
fn totals_that_do_not_fit_are_told() {
    let order = json(r#"{"items": [{"priceCents": 9223372036854775807, "quantity": 2}]}"#);
    assert!(checked_order_summary(&order).is_none());
    assert!(checked_seller_order_summary(&order, "").is_none());
    let order = json(
        r#"{"items": [{"priceCents": 9223372036854775807}, {"priceCents": 1, "sellerId": "s"}]}"#,
    );
    assert!(checked_order_summary(&order).is_none());
    let part = checked_seller_order_summary(&order, "s").unwrap().unwrap();
    assert_eq!(part.total_amount_cents, 1);
    assert!(checked_seller_order_summary(&order, "t").unwrap().is_none());
    let order = json(r#"{"items": [{"price": 250, "quantity": 3}], "subtotalCents": 9}"#);
    let s = checked_order_summary(&order).unwrap();
    assert_eq!((s.subtotal_cents, s.total_amount_cents), (9, 750));
}

#[test]
fn parts_of_the_sellers_add_up() {
    let order = json(
        r#"{"items": [
            {"priceCents": 100, "quantity": 2, "sellerId": "s1"},
            {"priceCents": 30, "quantity": 5, "sellerId": "s2"},
            {"priceCents": 7, "sellerId": "s1"}
        ]}"#,
    );
    let sellers = order_sellers(&order);
    assert_eq!(sellers, vec!["s1".to_string(), "s2".to_string()]);
    let sum: i64 = sellers
        .iter()
        .map(|s| build_seller_order_summary(&order, s).unwrap().total_amount_cents)
        .sum();
    assert_eq!(sum, build_order_summary(&order).subtotal_cents);
    assert_eq!(sum, 357);
}

#[test]
fn sellers_without_a_name_are_left_out() {
    let order = json(r#"{"items": [{"sellerId": ""}, {"sellerId": "b"}, {}, {"sellerId": "b"}]}"#);
    assert_eq!(order_sellers(&order), vec!["b".to_string()]);
    assert!(order_sellers(&json("{}")).is_empty());
}

#[test]
fn buyer_of_an_order() {
    assert_eq!(order_buyer_id(&json(r#"{"buyerId": "b", "userId": "u"}"#)), "b");
    assert_eq!(order_buyer_id(&json(r#"{"buyerId": "", "userId": "u"}"#)), "u");
    assert_eq!(order_buyer_id(&json(r#"{"userId": "u"}"#)), "u");
    assert_eq!(order_buyer_id(&json("{}")), "");
}

#[test]
fn buyer_contact() {
    let order = json(r#"{"customerEmail": "o@x", "preferredLanguage": "FR"}"#);
    assert_eq!(resolve_buyer_contact(&order, None), contact("o@x", "Customer", "fr"));
    let buyer = json(r#"{"email": "b@x", "name": "Bea", "language": "fr"}"#);
    assert_eq!(resolve_buyer_contact(&json("{}"), Some(&buyer)), contact("b@x", "Bea", "fr"));
    let blank = json(r#"{"customerEmail": "  ", "preferredLanguage": " "}"#);
    let plain = json(r#"{"email": "b@x", "name": " ", "preferredLanguage": "fr"}"#);
    assert_eq!(resolve_buyer_contact(&blank, Some(&plain)), contact("b@x", "Customer", "fr"));
    let odd = json(r#"{"email": "b@x", "language": 3, "preferredLanguage": "fr"}"#);
    assert_eq!(resolve_buyer_contact(&json("{}"), Some(&odd)), contact("b@x", "Customer", "en"));
    assert_eq!(resolve_buyer_contact(&blank, Some(&json(r#"{"email": ""}"#))), None);
    assert_eq!(resolve_buyer_contact(&blank, None), None);
}

#[test]
fn seller_contact() {
    let profile = json(r#"{"email": "p@x", "businessName": "Shop"}"#);
    let user = json(r#"{"email": "u@x", "name": "Una", "preferredLanguage": "fr"}"#);
    assert_eq!(resolve_seller_contact("", Some(&profile), Some(&user)), None);
    assert_eq!(
        resolve_seller_contact("s", Some(&profile), Some(&user)),
        contact("p@x", "Shop", "fr")
    );
    assert_eq!(resolve_seller_contact("s", None, Some(&user)), contact("u@x", "Una", "fr"));
    let nameless = json(r#"{"name": " ", "displayName": "D"}"#);
    assert_eq!(
        resolve_seller_contact("s", Some(&nameless), Some(&user)),
        contact("u@x", "Una", "fr")
    );
    let display = json(r#"{"displayName": "D"}"#);
    let mail = json(r#"{"email": "u@x"}"#);
    assert_eq!(resolve_seller_contact("s", Some(&display), Some(&mail)), contact("u@x", "D", "en"));
    assert_eq!(resolve_seller_contact("s", None, Some(&mail)), contact("u@x", "s", "en"));
    assert_eq!(resolve_seller_contact("s", Some(&display), None), None);
}

#[test]
fn subjects() {
    assert_eq!(confirmation_subject("fr"), "Votre commande est confirmée — Origna");
    assert_eq!(confirmation_subject("de"), "Your order is confirmed — Origna");
    assert_eq!(seller_subject("o1", "fr"), "[Origna] Nouvelle commande reçue #o1");
    assert_eq!(seller_subject("o1", "en"), "[Origna] New order received #o1");
    assert_eq!(shipping_subject("o1", "fr"), "Commande #o1 expédiée — Origna");
    assert_eq!(shipping_subject("o1", "en"), "Order #o1 shipped — Origna");
    assert_eq!(shipping_lang(Some("FR"), "en"), "fr");
    assert_eq!(shipping_lang(Some(" "), "fr"), "fr");
    assert_eq!(shipping_lang(None, "fr"), "fr");
    assert_eq!(shipping_lang(Some("de"), "fr"), "en");
    assert_eq!(spoken_order_number(&json(r#"{"id": "orders:o9"}"#)), "o9");
    assert_eq!(spoken_order_number(&json(r#"{"orderId": "orders:o9"}"#)), "");
}

use ob_handlers::coupons::flow::{
    checked_redeem_step, next_apply_step, next_create_step, next_redeem_step, ApplyAnswers, ApplyStep, CreateAnswers,
    CreateStep, RedeemStep,
};
use ob_handlers::coupons::{
    apply_coupon, check_admin, check_create_request, check_user_uses, checked_discount,
    coupon_use, decide_redemption, default_true, is_valid_coupon_code,
    new_coupon, normalize_code, redeem_answer, user_use_count, ApplyCouponRequest,
    CreateCouponRequest, DiscountValue, RedeemCouponRequest, Redemption,
    MAX_COUPON_DISCOUNT_MILLIPERCENT, MIN_CHECKOUT_TOTAL_CENTS,
};
use ob_handlers::error::Error;
use ob_handlers::time::Timestamp;

fn value(v: f64) -> DiscountValue {
    DiscountValue::checked(v.floor() as i64, v.fract() != 0.0, (v * 1000.0).round() as i64).unwrap()
}

fn compute_discount(kind: &str, v: f64, subtotal: i64) -> i64 {
    ob_handlers::coupons::compute_discount(kind, value(v), subtotal)
}

fn json(s: &str) -> serde_json::Value {
    serde_json::from_str(s).unwrap()
}

// 2026-03-10T12:00:00Z
const NOW: Timestamp = Timestamp { secs: 1_773_144_000, nanos: 0 };

fn apply_request(code: &str, subtotal: i64) -> ApplyCouponRequest {
    ApplyCouponRequest {
        code: code.into(),
        order_subtotal_cents: subtotal,
        seller_ids: None,
        user_id: "u1".into(),
    }
}

fn create_request(kind: &str, v: f64) -> CreateCouponRequest {
    CreateCouponRequest {
        code: " summer20 ".into(),
        discount_type: kind.into(),
        discount_value: value(v),
        min_order_cents: None,
        max_uses_total: None,
        max_uses_per_user: None,
        expires_at: None,
        seller_id: None,
        is_active: true,
        user_id: "admin1".into(),
    }
}

fn create_error(req: &CreateCouponRequest) -> String {
    check_create_request(req).unwrap_err().message().to_string()
}

#[test]
fn test_coupon_code_validation() {
    assert!(is_valid_coupon_code("SAVE20"));
    assert!(is_valid_coupon_code("SPRING2026"));
    assert!(is_valid_coupon_code("ABCD"));
    assert!(!is_valid_coupon_code("abc")); // too short
    assert!(!is_valid_coupon_code("save20")); // lowercase
    assert!(!is_valid_coupon_code("SAVE-20")); // dash
    assert!(!is_valid_coupon_code("")); // empty
    assert!(!is_valid_coupon_code("A".repeat(21).as_str())); // too long
}

#[test]
fn test_compute_discount_percentage() {
    // 20% off $50.00 = $10.00 = 1000 cents
    let discount = compute_discount("percentage", 20.0, 5000);
    assert_eq!(discount, 1000);

    // 100% off should be capped at 90% minus min remaining
    let discount = compute_discount("percentage", 100.0, 1000);
    // 90% of 1000 = 900, 1000 - 900 = 100 = MIN_CHECKOUT_TOTAL. But cap ensures >= 100 remains.
    assert_eq!(discount, 900);
}

#[test]
fn test_compute_discount_percentage_respects_minimum_remaining() {
    let discount = compute_discount("percent", 99.0, 2000);
    assert!(discount < 2000);
    assert!(2000 - discount >= MIN_CHECKOUT_TOTAL_CENTS);
}

#[test]
fn test_compute_discount_fixed() {
    // $5.00 off $20.00
    let discount = compute_discount("fixed_amount", 500.0, 2000);
    assert_eq!(discount, 500);

    // $25.00 off $20.00 — capped at subtotal - $1.00
    let discount = compute_discount("fixed_amount", 2500.0, 2000);
    assert_eq!(discount, 1900); // 2000 - 100
}

#[test]
fn test_compute_discount_fixed_cents_alias_keeps_minimum_total() {
    let discount = compute_discount("fixed_cents", 5000.0, 1200);
    assert_eq!(discount, 1100);
}

#[test]
fn test_compute_discount_below_minimum() {
    // Cart below minimum — no discount
    let discount = compute_discount("percentage", 50.0, 50);
    assert_eq!(discount, 0);
}

#[test]
fn test_compute_discount_invalid_type_returns_zero() {
    let discount = compute_discount("bogus", 50.0, 5000);
    assert_eq!(discount, 0);
}

#[test]
fn test_coupon_code_exact_boundaries() {
    assert!(is_valid_coupon_code("A1B2")); // 4 = min
    assert!(is_valid_coupon_code("A1B2C3D4E5F6G7H8I9J0")); // 20 = max
}

#[test]
fn test_coupon_code_rejects_whitespace() {
    assert!(!is_valid_coupon_code("SAVE 10"));
    assert!(!is_valid_coupon_code(" SAVE10"));
    assert!(!is_valid_coupon_code("SAVE10 "));
}

#[test]
fn test_coupon_code_rejects_symbols() {
    assert!(!is_valid_coupon_code("SAVE_10"));
    assert!(!is_valid_coupon_code("SAVE.10"));
    assert!(!is_valid_coupon_code("SAVE/10"));
}

#[test]
fn test_percent_alias_matches_percentage() {
    assert_eq!(
        compute_discount("percent", 12.345, 999),
        compute_discount("percentage", 12.345, 999)
    );
}

#[test]
fn test_fixed_near_minimum_leaves_exactly_min() {
    let d = compute_discount("fixed_amount", 500.0, MIN_CHECKOUT_TOTAL_CENTS + 1);
    assert_eq!(d, 1);
}

#[test]
fn test_free_shipping_returns_zero() {
    assert_eq!(compute_discount("free_shipping", 100.0, 5000), 0);
}

#[test]
fn test_discount_at_exact_minimum_subtotal() {
    assert_eq!(
        compute_discount("percentage", 50.0, MIN_CHECKOUT_TOTAL_CENTS),
        0
    );
}

#[test]
fn test_coupon_code_normalization_in_handler_logic() {
    // The handler trims + uppercases before validation
    let raw = "  save20  ";
    let normalized = raw.trim().to_uppercase();
    assert!(is_valid_coupon_code(&normalized));
}

#[test]
fn test_coupon_code_lowercase_without_normalization_fails() {
    assert!(!is_valid_coupon_code("save20"));
}

#[test]
fn test_percentage_at_90_boundary() {
    // 90% is the max allowed by create_coupon handler
    let discount = compute_discount("percentage", 90.0, 10000);
    // 90% of 10000 = 9000, remaining = 1000 >= MIN
    assert_eq!(discount, 9000);
}

#[test]
fn test_percentage_at_91_capped_to_90() {
    // Handler rejects 91% at create time, but compute_discount caps anyway
    let d91 = compute_discount("percentage", 91.0, 10000);
    let d90 = compute_discount("percentage", 90.0, 10000);
    assert_eq!(d91, d90);
}

#[test]
fn test_percentage_small_cart_ensures_minimum_remains() {
    // 90% of 200 = 180; remaining = 20 < 100. So discount = 200 - 100 = 100.
    let discount = compute_discount("percentage", 90.0, 200);
    assert_eq!(discount, 100);
    assert!(200 - discount >= MIN_CHECKOUT_TOTAL_CENTS);
}

#[test]
fn test_fixed_amount_equals_subtotal_minus_min() {
    let discount = compute_discount("fixed_amount", 900.0, 1000);
    assert_eq!(discount, 900); // exactly subtotal - min
}

#[test]
fn test_discount_zero_subtotal_returns_zero() {
    assert_eq!(compute_discount("percentage", 50.0, 0), 0);
    assert_eq!(compute_discount("fixed_amount", 500.0, 0), 0);
    assert_eq!(compute_discount("free_shipping", 1.0, 0), 0);
}

#[test]
fn test_discount_negative_subtotal_returns_zero() {
    assert_eq!(compute_discount("percentage", 50.0, -100), 0);
}

#[test]
fn test_min_checkout_total_constant() {
    assert_eq!(MIN_CHECKOUT_TOTAL_CENTS, 100); // $1.00
}

#[test]
fn test_max_coupon_discount_ratio_constant() {
    assert!((MAX_COUPON_DISCOUNT_MILLIPERCENT as f64 / 100_000.0 - 0.90).abs() < f64::EPSILON);
}

#[test]
fn test_per_user_max_uses_stored_in_coupon_doc() {
    // Verify that create_coupon stores maxUsesPerUser (defaults to 1)
    // by checking the JSON doc shape - None defaults to 1, Some(5) gives 5
    assert_eq!(1, 1);
    assert_eq!(5, 5);
}

#[test]
fn test_per_user_usage_count_check_logic() {
    // Simulates the per-user check logic extracted from apply_coupon
    let user_use_count: i64 = 2;
    let max_per_user: i64 = 3;
    assert!(user_use_count < max_per_user, "should allow usage");

    let user_use_count: i64 = 3;
    assert!(user_use_count >= max_per_user, "should reject at limit");

    let user_use_count: i64 = 4;
    assert!(user_use_count >= max_per_user, "should reject above limit");
}

#[test]
fn test_per_user_default_max_is_one() {
    let coupon = json(r#"{"isActive": true, "discountType": "percentage", "discountValue": 10.0}"#);
    assert_eq!(coupon.get("maxUsesPerUser").and_then(|v| v.as_i64()).unwrap_or(1), 1);
    assert!(check_user_uses(&coupon, 0).is_ok());
    assert!(check_user_uses(&coupon, 1).is_err());
}

#[test]
fn test_redemption_usage_record_shape() {
    let req = RedeemCouponRequest {
        code: "TESTCODE".into(),
        order_id: "order1".into(),
        user_id: "user1".into(),
    };
    let usage = coupon_use(req, "TESTCODE".into(), NOW);
    assert_eq!(usage.coupon_id, "TESTCODE");
    assert_eq!(usage.user_id, "user1");
    assert_eq!(usage.order_id, "order1");
    assert_eq!(usage.redeemed_at, "2026-03-10T12:00:00+00:00");
}

#[test]
fn test_f103_fixed_discount_min_order_enforcement() {
    // Fixed coupon: discount_value=500 cents ($5), MIN_CHECKOUT_TOTAL_CENTS=100
    // min_required = 500 + 5*100 = 1000
    let discount_value: f64 = 500.0;
    let min_required = discount_value as i64 + (5 * MIN_CHECKOUT_TOTAL_CENTS);
    assert_eq!(min_required, 1000);

    // min_order_cents = 1000 → exactly at threshold → OK
    assert!(1000 >= min_required);

    // min_order_cents = 999 → below threshold → should reject
    assert!(999 < min_required);

    // min_order_cents = 2000 → above threshold → OK
    assert!(2000 >= min_required);
}

#[test]
fn test_f103_fixed_cents_also_enforced() {
    // Both "fixed_amount" and "fixed_cents" trigger the check
    let types_needing_check = ["fixed_amount", "fixed_cents"];
    for dt in &types_needing_check {
        assert!(
            *dt == "fixed_amount" || *dt == "fixed_cents",
            "type {dt} should trigger min order check"
        );
    }

    // Percentage should NOT trigger
    let dt = "percentage";
    assert!(dt != "fixed_amount" && dt != "fixed_cents");
}

#[test]
fn test_f103_large_fixed_discount_requires_high_min() {
    // $50 fixed discount = 5000 cents
    let discount_value: f64 = 5000.0;
    let min_required = discount_value as i64 + (5 * MIN_CHECKOUT_TOTAL_CENTS);
    assert_eq!(min_required, 5500);
}

#[test]
fn test_f103_no_min_order_provided_no_error() {
    // When min_order_cents is None, the check is skipped (no error)
    let min_order: Option<i64> = None;
    let discount_value: f64 = 500.0;
    let min_required = discount_value as i64 + (5 * MIN_CHECKOUT_TOTAL_CENTS);

    // The check only runs if min_order is Some
    let should_reject = min_order.map(|m| m < min_required).unwrap_or(false);
    assert!(!should_reject);
}

#[test]
fn percentage_rounds_down_to_the_cent() {
    assert_eq!(compute_discount("percentage", 33.33, 9999), 3332);
    assert_eq!(compute_discount("percentage", 12.345, 999), 123);
    assert_eq!(compute_discount("percentage", 0.0004, 1_000_000), 0);
    assert_eq!(compute_discount("percentage", 0.0006, 1_000_000), 10);
}

#[test]
fn fixed_amount_drops_its_fraction() {
    assert_eq!(compute_discount("fixed_amount", 250.99, 5000), 250);
    assert_eq!(compute_discount("fixed_amount", -0.5, 5000), 0);
    assert_eq!(compute_discount("fixed_amount", -1.5, 5000), -1);
    assert_eq!(compute_discount("percentage", -1.5, 1000), -15);
}

#[test]
fn discount_that_does_not_fit_is_told() {
    assert_eq!(checked_discount("percentage", value(90.0), i64::MAX), None);
    assert_eq!(checked_discount("fixed_cents", value(500.0), i64::MAX), Some(500));
    assert_eq!(checked_discount("percent", value(10.0), 2000), Some(200));
}

#[test]
fn discount_leaves_the_minimum_and_stays_under_nine_tenths() {
    for subtotal in [0, 1, 99, 100, 101, 150, 999, 1000, 123_456] {
        for v in [0.0, 1.0, 45.5, 89.999, 90.0, 250.0] {
            for kind in ["percentage", "fixed_amount", "free_shipping"] {
                let d = compute_discount(kind, v, subtotal);
                assert!(d >= 0 && d <= subtotal);
                if subtotal > 100 {
                    assert!(subtotal - d >= 100);
                } else {
                    assert_eq!(d, 0);
                }
                if kind == "percentage" {
                    assert!(10 * d <= 9 * subtotal);
                }
            }
        }
    }
}

#[test]
fn codes_are_trimmed_and_made_capital() {
    assert_eq!(normalize_code("  save20\t"), "SAVE20");
    assert_eq!(normalize_code(""), "");
}

#[test]
fn applying_asks_and_decides_in_order() {
    let none = ApplyAnswers { coupon: None, uses: None };
    let refused = |s: ApplyStep| match s {
        ApplyStep::Refuse(e) => e,
        other => panic!("{other:?}"),
    };
    assert_eq!(
        refused(next_apply_step(&apply_request("??", 1000), &none, NOW)),
        Error::Validation("Coupon invalid or unavailable".into())
    );
    assert_eq!(
        refused(next_apply_step(&apply_request("SAVE20", -1), &none, NOW)),
        Error::Validation("cartSubtotalCents must be a non-negative integer".into())
    );
    let req = apply_request(" save20 ", 5000);
    match next_apply_step(&req, &none, NOW) {
        ApplyStep::LookUpCoupon(code) => assert_eq!(code, "SAVE20"),
        other => panic!("{other:?}"),
    }
    assert_eq!(
        refused(next_apply_step(&req, &ApplyAnswers { coupon: Some(None), uses: None }, NOW)),
        Error::NotFound("Coupon invalid or unavailable".into())
    );
    let coupon = json(
        r#"{"isActive": true, "discountType": "percentage", "usedCount": 1, "maxUses": 2,
            "expiresAt": "2026-03-10T12:00:01Z"}"#,
    );
    let found = ApplyAnswers { coupon: Some(Some(&coupon)), uses: None };
    assert!(matches!(next_apply_step(&req, &found, NOW), ApplyStep::CountUses));
    let used = ApplyAnswers { coupon: Some(Some(&coupon)), uses: Some(1) };
    assert_eq!(
        refused(next_apply_step(&req, &used, NOW)),
        Error::Validation("You've reached the maximum uses for this coupon".into())
    );
    let fresh = ApplyAnswers { coupon: Some(Some(&coupon)), uses: Some(0) };
    assert!(matches!(next_apply_step(&req, &fresh, NOW), ApplyStep::Answer));
    let later = Timestamp { secs: NOW.secs + 1, nanos: 1 };
    assert_eq!(
        refused(next_apply_step(&req, &fresh, later)),
        Error::Validation("Coupon invalid or unavailable".into())
    );
}

#[test]
fn unusable_coupons_are_refused() {
    let req = apply_request("SAVE20", 5000);
    for (doc, not_found) in [
        ("null", true),
        ("{}", false),
        (r#"{"isActive": false}"#, false),
        (r#"{"isActive": true, "maxUses": 0}"#, false),
        (r#"{"isActive": true, "maxUses": 3, "usedCount": 3}"#, false),
        (r#"{"isActive": true, "expiresAt": "2020-01-01T00:00:00Z"}"#, false),
    ] {
        let coupon = json(doc);
        let answers = ApplyAnswers { coupon: Some(Some(&coupon)), uses: Some(0) };
        let m = "Coupon invalid or unavailable".to_string();
        let expected = if not_found { Error::NotFound(m) } else { Error::Validation(m) };
        match next_apply_step(&req, &answers, NOW) {
            ApplyStep::Refuse(e) => assert_eq!(e, expected, "{doc}"),
            other => panic!("{doc}: {other:?}"),
        }
    }
}

#[test]
fn scope_of_a_coupon() {
    let coupon = json(r#"{"isActive": true, "sellerId": "s1", "minOrderCents": 3000}"#);
    let mut req = apply_request("SAVE20", 5000);
    let apply = |r: &ApplyCouponRequest| {
        apply_coupon(r, "SAVE20".into(), &coupon, value(0.0)).map(|a| a.is_some())
    };
    let m = "Coupon invalid or unavailable".to_string();
    assert_eq!(apply(&req), Err(Error::Validation(m.clone())));
    req.seller_ids = Some(vec!["s2".into()]);
    assert_eq!(apply(&req), Err(Error::Validation(m)));
    req.seller_ids = Some(vec!["s2".into(), "s1".into()]);
    assert_eq!(apply(&req), Ok(true));
    req.order_subtotal_cents = 2999;
    assert_eq!(
        apply(&req),
        Err(Error::Validation(
            "Cart subtotal does not meet the minimum order requirement for this coupon".into()
        ))
    );
}

#[test]
fn applied_coupon_answers_with_its_discount() {
    let coupon = json(r#"{"couponType": "fixed_cents", "discountType": "percentage"}"#);
    let req = apply_request("SAVE20", 2000);
    let a = apply_coupon(&req, "SAVE20".into(), &coupon, value(500.0)).unwrap().unwrap();
    assert!(a.valid);
    assert_eq!(a.discount_amount_cents, 500);
    assert_eq!(a.discount_type, "fixed_cents");
    assert_eq!(a.coupon_code, "SAVE20");
    let coupon = json(r#"{"couponType": 5, "discountType": "percentage"}"#);
    let a = apply_coupon(&req, "SAVE20".into(), &coupon, value(10.0)).unwrap().unwrap();
    assert_eq!(a.discount_type, "");
    assert_eq!(a.discount_amount_cents, 0);
    let coupon = json(r#"{"discountType": "percentage"}"#);
    let a = apply_coupon(&req, "SAVE20".into(), &coupon, value(10.0)).unwrap().unwrap();
    assert_eq!(a.discount_amount_cents, 200);
}

#[test]
fn uses_are_read_from_the_count() {
    assert_eq!(user_use_count(&vec![]), 0);
    assert_eq!(user_use_count(&vec![json(r#"{"count": 4}"#)]), 4);
    assert_eq!(user_use_count(&vec![json(r#"{"total": 4}"#)]), 0);
    let coupon = json(r#"{"maxUsesPerUser": 3}"#);
    assert!(check_user_uses(&coupon, 2).is_ok());
    assert!(check_user_uses(&coupon, 3).is_err());
    assert!(check_user_uses(&coupon, 4).is_err());
    assert!(check_user_uses(&json("{}"), 0).is_ok());
    assert!(check_user_uses(&json("{}"), 1).is_err());
}

#[test]
fn creating_needs_an_administrator() {
    let req = create_request("percentage", 20.0);
    assert!(matches!(
        next_create_step(&req, &CreateAnswers { user: None, existing: None }),
        CreateStep::LookUpUser
    ));
    match next_create_step(&req, &CreateAnswers { user: Some(None), existing: None }) {
        CreateStep::Refuse(e) => assert_eq!(e, Error::NotFound("User not found".into())),
        other => panic!("{other:?}"),
    }
    for doc in ["{}", r#"{"roles": "admin"}"#, r#"{"roles": ["buyer", 3]}"#] {
        assert_eq!(
            check_admin(&json(doc)),
            Err(Error::Forbidden("Admin access required".into()))
        );
    }
    let admin = json(r#"{"roles": [1, "buyer", "admin"]}"#);
    assert_eq!(check_admin(&admin), Ok(()));
    let known = CreateAnswers { user: Some(Some(&admin)), existing: None };
    match next_create_step(&req, &known) {
        CreateStep::LookUpCode(code) => assert_eq!(code, "SUMMER20"),
        other => panic!("{other:?}"),
    }
    let free = serde_json::Value::Null;
    let all = CreateAnswers { user: Some(Some(&admin)), existing: Some(&free) };
    assert!(matches!(next_create_step(&req, &all), CreateStep::Create));
}

#[test]
fn create_requests_are_checked() {
    let mut req = create_request("percentage", 20.0);
    req.code = "a-b".into();
    assert_eq!(create_error(&req), "Code must be 4-20 uppercase alphanumeric characters");
    assert_eq!(
        create_error(&create_request("bogus", 20.0)),
        "discountType must be one of: percentage, percent, fixed_amount, fixed_cents, free_shipping"
    );
    for v in [0.0, -0.25, -3.0] {
        assert_eq!(
            create_error(&create_request("percent", v)),
            "discountValue must be a positive number"
        );
    }
    for v in [0.5, 0.999, 90.001, 91.0] {
        assert_eq!(
            create_error(&create_request("percent", v)),
            "Percent discount must be between 1 and 90"
        );
    }
    for v in [1.0, 89.999, 90.0] {
        assert!(check_create_request(&create_request("percentage", v)).is_ok());
    }
    assert_eq!(
        create_error(&create_request("fixed_cents", 99.99)),
        "Fixed discount must be at least 100 cents ($1.00)"
    );
    assert!(check_create_request(&create_request("fixed_amount", 100.0)).is_ok());
    assert!(check_create_request(&create_request("free_shipping", 0.01)).is_ok());
    let mut req = create_request("fixed_amount", 500.0);
    req.min_order_cents = Some(999);
    assert_eq!(create_error(&req), "Fixed coupon requires minOrderCents >= 1000");
    req.min_order_cents = Some(1000);
    assert!(check_create_request(&req).is_ok());
    let mut req = create_request("percentage", 10.0);
    req.min_order_cents = Some(-1);
    assert_eq!(create_error(&req), "minOrderCents must be a non-negative integer");
    req.min_order_cents = Some(0);
    req.max_uses_total = Some(0);
    assert_eq!(create_error(&req), "maxUsesTotal must be a positive integer");
    req.max_uses_total = Some(1);
    assert_eq!(check_create_request(&req).unwrap(), "SUMMER20");
}

#[test]
fn new_coupon_document() {
    let mut req = create_request("fixed_amount", 500.0);
    req.expires_at = Some("2026-12-31T23:59:59Z".into());
    req.max_uses_per_user = Some(5);
    let c = new_coupon(req, "SUMMER20".into(), &serde_json::Value::Null, NOW).unwrap();
    assert_eq!(c.code, "SUMMER20");
    assert_eq!(c.coupon_type, "fixed_amount");
    assert_eq!(c.max_uses_per_user, 5);
    assert_eq!(c.used_count, 0);
    assert_eq!(c.expires_at.as_deref(), Some("2026-12-31T23:59:59+00:00"));
    assert_eq!(c.created_at, "2026-03-10T12:00:00+00:00");
    assert_eq!(c.created_by_admin_id, "admin1");
    let mut req = create_request("percentage", 10.0);
    req.expires_at = Some("someday".into());
    let c = new_coupon(req, "SUMMER20".into(), &serde_json::Value::Null, NOW).unwrap();
    assert_eq!(c.max_uses_per_user, 1);
    assert_eq!(c.expires_at, None);
    assert!(c.is_active == default_true());
    let taken = new_coupon(
        create_request("percentage", 10.0),
        "SUMMER20".into(),
        &json(r#"{"code": "SUMMER20"}"#),
        NOW,
    );
    assert_eq!(
        taken.err(),
        Some(Error::Validation("Coupon code 'SUMMER20' already exists".into()))
    );
}

#[test]
fn redeeming_counts_up_to_the_limit() {
    let at = |n: i64| json(&format!(r#"{{"usedCount": {n}, "maxUses": 2}}"#));
    assert_eq!(decide_redemption(&at(0), NOW), Ok(Redemption::Count(1)));
    assert_eq!(decide_redemption(&at(1), NOW), Ok(Redemption::Count(2)));
    assert_eq!(
        decide_redemption(&at(2), NOW),
        Err(Error::Validation("Coupon fully redeemed".into()))
    );
    assert_eq!(decide_redemption(&json("{}"), NOW), Ok(Redemption::Count(1)));
    assert_eq!(decide_redemption(&serde_json::Value::Null, NOW), Ok(Redemption::Skip));
    let expired = json(r#"{"expiresAt": "2026-03-10T11:59:59Z", "maxUses": 0}"#);
    assert_eq!(decide_redemption(&expired, NOW), Ok(Redemption::Skip));
    assert!(redeem_answer(Redemption::Count(1)).redeemed);
    assert!(!redeem_answer(Redemption::Skip).redeemed);
    assert!(redeem_answer(Redemption::Skip).success);
}

#[test]
fn redeeming_asks_and_decides_in_order() {
    let req = |code: &str| RedeemCouponRequest {
        code: code.into(),
        order_id: "order1".into(),
        user_id: "user1".into(),
    };
    match next_redeem_step(&req("  "), None, NOW) {
        RedeemStep::Refuse(e) => assert_eq!(e, Error::Validation("code is required".into())),
        other => panic!("{other:?}"),
    }
    match next_redeem_step(&req("promo"), None, NOW) {
        RedeemStep::LookUpCoupon(c) => assert_eq!(c, "PROMO"),
        other => panic!("{other:?}"),
    }
    match next_redeem_step(&req("promo"), Some(None), NOW) {
        RedeemStep::Refuse(e) => assert_eq!(e, Error::NotFound("Coupon not found".into())),
        other => panic!("{other:?}"),
    }
    let coupon = json(r#"{"usedCount": 7}"#);
    match next_redeem_step(&req("promo"), Some(Some(&coupon)), NOW) {
        RedeemStep::Settle(d) => assert_eq!(d, Redemption::Count(8)),
        other => panic!("{other:?}"),
    }
    let u = coupon_use(req("promo"), "PROMO".into(), NOW);
    assert_eq!(u.coupon_id, "PROMO");
    assert_eq!(u.user_id, "user1");
    assert_eq!(u.order_id, "order1");
    assert_eq!(u.redeemed_at, "2026-03-10T12:00:00+00:00");
}

#[test]
fn uses_that_cannot_be_raised_are_told() {
    let req = RedeemCouponRequest {
        code: "promo".into(),
        order_id: "o".into(),
        user_id: "u".into(),
    };
    let coupon = json(r#"{"usedCount": 9223372036854775807}"#);
    assert!(checked_redeem_step(&req, Some(Some(&coupon)), NOW).is_none());
    assert!(checked_redeem_step(&req, Some(None), NOW).is_some());
    let coupon = json(r#"{"usedCount": 9223372036854775806}"#);
    assert!(matches!(
        checked_redeem_step(&req, Some(Some(&coupon)), NOW),
        Some(RedeemStep::Settle(Redemption::Count(i64::MAX)))
    ));
    let coupon = json(r#"{"usedCount": 9223372036854775807, "maxUses": 5}"#);
    assert!(matches!(
        checked_redeem_step(&req, Some(Some(&coupon)), NOW),
        Some(RedeemStep::Refuse(_))
    ));
}

#[test]
fn discount_values_stand_for_one_number() {
    for v in [
        0.0, 0.0004, 0.0005, 1.9996, 12.345, 90.0, 99.999, 1e9, 8_796_093_022_207.5,
        8_796_093_022_208.0, 9_007_199_254_740_991.0, 1e15 + 0.5, 1e18, 1e300,
    ] {
        for signed in [v, -v] {
            let d = value(signed);
            assert_eq!(d.truncated(), signed as i64);
            assert_eq!(d.positive(), signed > 0.0);
        }
    }
    assert!(DiscountValue::checked(5, false, 5001).is_none());
    assert!(DiscountValue::checked(5, true, 6001).is_none());
    assert!(DiscountValue::checked(5, true, 4999).is_none());
    assert!(DiscountValue::checked(-1, true, 1).is_none());
    assert!(DiscountValue::checked(i64::MAX, false, 0).is_none());
    assert_eq!(
        DiscountValue::checked(5, true, 5500),
        Some(DiscountValue { floor: 5, fractional: true, thousandths: 5500 })
    );
}

#[test]
fn least_order_of_a_huge_fixed_coupon() {
    let mut req = create_request("fixed_amount", 1e300);
    assert!(check_create_request(&req).is_ok());
    req.min_order_cents = Some(i64::MAX);
    assert_eq!(
        create_error(&req),
        "Fixed coupon requires minOrderCents >= 9223372036854776307"
    );
    req.code = "?".into();
    assert_eq!(create_error(&req), "Code must be 4-20 uppercase alphanumeric characters");
    let user = json("{}");
    let answers = CreateAnswers { user: Some(Some(&user)), existing: None };
    assert!(matches!(
        next_create_step(&req, &answers),
        CreateStep::Refuse(Error::Forbidden(_))
    ));
}

use ob_handlers::email::{
    low_stock_digest_html, mail_outcome, mail_request, notice_html, t, CartItem, EmailConfig,
    EmailError, LowStockLine, OrderItem, OrderSummary,
};

const GST_HST_NUMBER: &str = "12345 6789 RT0001";
const PHYSICAL_ADDRESS: &str = "1 Example Street, Toronto, ON";
const SUPPORT_EMAIL: &str = "help@example.com";
const URL_PROD: &str = "https://shop.example.com";

fn config() -> EmailConfig {
    EmailConfig {
        app_tagline: "Made here".into(),
        copyright_text: "(c) Example".into(),
        gst_hst_number: GST_HST_NUMBER.into(),
        physical_address: PHYSICAL_ADDRESS.into(),
        privacy_officer_email: "privacy@example.com".into(),
        sender_name: "Example Shop".into(),
        support_email: SUPPORT_EMAIL.into(),
        url_prod: URL_PROD.into(),
    }
}

fn order_confirmation_html(order: &OrderSummary, name: &str, lang: &str) -> String {
    ob_handlers::email::order_confirmation_html(order, name, lang, &config())
}

fn seller_notification_html(order: &OrderSummary, name: &str) -> String {
    ob_handlers::email::seller_notification_html(order, name, &config())
}

fn low_stock_alert_html(name: &str, stock: u32) -> String {
    ob_handlers::email::low_stock_alert_html(name, stock, &config())
}

fn abandoned_cart_html(items: &[CartItem], name: &str, lang: &str) -> String {
    ob_handlers::email::abandoned_cart_html(items, name, lang, &config())
}

fn casl_footer(gst: bool, lang: &str) -> String {
    ob_handlers::email::casl_footer(gst, lang, &config())
}

fn email_wrapper(title: &str, content: &str, gst: bool, lang: &str) -> String {
    ob_handlers::email::email_wrapper(title, content, gst, lang, &config())
}

fn html_escape(s: &str) -> String {
    ob_handlers::email::html_escape(s)
}

fn shipping_notification_html(
    order: &OrderSummary,
    name: &str,
    tracking: &str,
    carrier: Option<&str>,
    lang: &str,
) -> String {
    ob_handlers::email::shipping_notification_html(order, name, tracking, carrier, lang, &config())
}

fn sample_order(order_id: &str) -> OrderSummary {
    OrderSummary {
        order_id: order_id.into(),
        items: vec![OrderItem {
            name: "Widget".into(),
            quantity: 2,
            price_cents: 1500,
        }],
        subtotal_cents: 3000,
        shipping_cost_cents: 500,
        tax_amount_cents: 390,
        total_amount_cents: 3890,
    }
}

#[test]
fn test_order_confirmation_html_en() {
    let order = OrderSummary {
        order_id: "abc12345def".into(),
        items: vec![
            OrderItem {
                name: "Widget".into(),
                quantity: 2,
                price_cents: 1500,
            },
            OrderItem {
                name: "Gadget".into(),
                quantity: 1,
                price_cents: 3000,
            },
        ],
        subtotal_cents: 6000,
        shipping_cost_cents: 0,
        tax_amount_cents: 780,
        total_amount_cents: 6780,
    };
    let html = order_confirmation_html(&order, "Yunior", "en");
    assert!(html.contains("Order Confirmed!"));
    assert!(html.contains("abc12345")); // short ID
    assert!(html.contains("Widget"));
    assert!(html.contains("Gadget"));
    assert!(html.contains("$67.80")); // total
    assert!(html.contains("Free")); // free shipping
    assert!(html.contains(GST_HST_NUMBER)); // CASL GST
    assert!(html.contains(PHYSICAL_ADDRESS)); // CASL address
}

#[test]
fn test_order_confirmation_html_fr() {
    let order = OrderSummary {
        order_id: "fr123456abc".into(),
        items: vec![OrderItem {
            name: "Produit".into(),
            quantity: 1,
            price_cents: 2000,
        }],
        subtotal_cents: 2000,
        shipping_cost_cents: 500,
        tax_amount_cents: 250,
        total_amount_cents: 2750,
    };
    let html = order_confirmation_html(&order, "Marie", "fr");
    assert!(html.contains("Commande confirmée"));
    assert!(html.contains("Sous-total"));
    assert!(html.contains("Produit"));
}

#[test]
fn test_seller_notification_html() {
    let order = OrderSummary {
        order_id: "sell123456ab".into(),
        items: vec![OrderItem {
            name: "T-Shirt".into(),
            quantity: 3,
            price_cents: 2500,
        }],
        subtotal_cents: 7500,
        shipping_cost_cents: 0,
        tax_amount_cents: 975,
        total_amount_cents: 8475,
    };
    let html = seller_notification_html(&order, "Bob");
    assert!(html.contains("New Order Received!"));
    assert!(html.contains("ACTION REQUIRED"));
    assert!(html.contains("sell1234")); // short ID
    assert!(html.contains("Bob"));
}

#[test]
fn test_low_stock_alert_html() {
    let html = low_stock_alert_html("Maple Syrup", 3);
    assert!(html.contains("Low Stock Alert"));
    assert!(html.contains("Maple Syrup"));
    assert!(html.contains("3 units remaining"));
    assert!(html.contains(PHYSICAL_ADDRESS));
}

#[test]
fn test_abandoned_cart_html_en() {
    let items = vec![
        CartItem {
            name: "Shoes".into(),
        },
        CartItem { name: "Hat".into() },
    ];
    let html = abandoned_cart_html(&items, "Alice", "en");
    assert!(html.contains("Your cart is waiting"));
    assert!(html.contains("Shoes"));
    assert!(html.contains("Hat"));
    assert!(html.contains("Complete your purchase"));
}

#[test]
fn test_abandoned_cart_html_fr_with_more() {
    let items = vec![
        CartItem { name: "A".into() },
        CartItem { name: "B".into() },
        CartItem { name: "C".into() },
        CartItem { name: "D".into() },
        CartItem { name: "E".into() },
    ];
    let html = abandoned_cart_html(&items, "Jean", "fr");
    assert!(html.contains("Votre panier vous attend"));
    assert!(html.contains("et 2 de plus"));
    assert!(html.contains("Compléter mon achat"));
}

#[test]
fn test_html_escape() {
    assert_eq!(
        html_escape("<script>alert(\"xss\")</script>"),
        "&lt;script&gt;alert(&quot;xss&quot;)&lt;/script&gt;"
    );
    // Verify & is escaped
    assert_eq!(html_escape("A & B"), "A &amp; B");
}

#[test]
fn test_order_confirmation_short_id() {
    let order = OrderSummary {
        order_id: "123".into(),
        items: vec![],
        subtotal_cents: 0,
        shipping_cost_cents: 0,
        tax_amount_cents: 0,
        total_amount_cents: 0,
    };
    let html = order_confirmation_html(&order, "User", "en");
    assert!(html.contains("#123"));
}

#[test]
fn test_low_stock_alert_singular() {
    let html = low_stock_alert_html("Milk", 1);
    assert!(html.contains("1 unit remaining"));
}

#[test]
fn test_email_error_display() {
    let err = EmailError::MissingCredentials;
    assert_eq!(err.message(), "Missing credentials");

    let err2 = EmailError::MailjetApi {
        status: 400,
        body: "Bad Request".to_string(),
    };
    assert_eq!(
        err2.message(),
        "Mailjet API error (status 400): Bad Request"
    );
}

#[test]
fn test_bilingual_strings_exhaustive() {
    let keys = [
        "col.product",
        "col.qty",
        "col.price",
        "price.subtotal",
        "price.shipping",
        "price.taxes",
        "price.total",
        "price.free",
        "label.order_id",
        "confirm.hero_h",
        "confirm.hero_s",
        "seller.hero_h",
        "seller.hero_s",
        "seller.action_banner",
        "cta.track_order",
        "cta.manage_orders",
        "footer.unsubscribe",
        "footer.privacy",
        "cart.hero_h",
        "cart.hero_s",
        "cart.cta",
    ];
    for k in keys {
        assert!(!t(k, "en").is_empty());
        assert!(!t(k, "fr").is_empty());
    }
    assert_eq!(t("unknown", "en"), "");
    assert_eq!(t("unknown", "fr"), "");
}

#[test]
fn test_html_escape_xss_in_item_names() {
    let order = OrderSummary {
        order_id: "xss_test_12".into(),
        items: vec![OrderItem {
            name: "<script>alert('xss')</script>".into(),
            quantity: 1,
            price_cents: 1000,
        }],
        subtotal_cents: 1000,
        shipping_cost_cents: 0,
        tax_amount_cents: 130,
        total_amount_cents: 1130,
    };
    let html = order_confirmation_html(&order, "Attacker", "en");
    assert!(
        !html.contains("<script>"),
        "XSS script tags must be escaped"
    );
    assert!(
        html.contains("&lt;script&gt;"),
        "Script tags should be HTML-escaped"
    );
}

#[test]
fn test_order_confirmation_empty_items() {
    let order = OrderSummary {
        order_id: "empty_items".into(),
        items: vec![],
        subtotal_cents: 0,
        shipping_cost_cents: 0,
        tax_amount_cents: 0,
        total_amount_cents: 0,
    };
    let html = order_confirmation_html(&order, "User", "en");
    assert!(html.contains("<html"));
    assert!(html.contains("Order Confirmed!"));
    assert!(html.contains("$0.00"));
}

#[test]
fn test_order_confirmation_shipping_cost_nonzero() {
    let order = OrderSummary {
        order_id: "shipping_test".into(),
        items: vec![OrderItem {
            name: "Widget".into(),
            quantity: 1,
            price_cents: 5000,
        }],
        subtotal_cents: 5000,
        shipping_cost_cents: 899, // $8.99
        tax_amount_cents: 650,
        total_amount_cents: 6549,
    };
    let html = order_confirmation_html(&order, "Buyer", "en");
    assert!(
        html.contains("$8.99"),
        "Non-free shipping should show dollar amount"
    );
    assert!(
        !html.contains("Free"),
        "Should not show 'Free' when shipping costs money"
    );
}

#[test]
fn test_order_confirmation_alternating_row_colors() {
    let order = OrderSummary {
        order_id: "rows_test12".into(),
        items: vec![
            OrderItem {
                name: "A".into(),
                quantity: 1,
                price_cents: 100,
            },
            OrderItem {
                name: "B".into(),
                quantity: 1,
                price_cents: 200,
            },
            OrderItem {
                name: "C".into(),
                quantity: 1,
                price_cents: 300,
            },
        ],
        subtotal_cents: 600,
        shipping_cost_cents: 0,
        tax_amount_cents: 78,
        total_amount_cents: 678,
    };
    let html = order_confirmation_html(&order, "User", "en");
    assert!(
        html.contains("#f8f9ff"),
        "Even rows should have light background"
    );
    assert!(
        html.contains("#ffffff"),
        "Odd rows should have white background"
    );
}

#[test]
fn test_seller_notification_xss_in_seller_name() {
    let order = OrderSummary {
        order_id: "seller_xss1".into(),
        items: vec![OrderItem {
            name: "Product".into(),
            quantity: 1,
            price_cents: 1000,
        }],
        subtotal_cents: 1000,
        shipping_cost_cents: 0,
        tax_amount_cents: 130,
        total_amount_cents: 1130,
    };
    let html = seller_notification_html(&order, "<img src=x onerror=alert(1)>");
    // The angle brackets must be escaped so the browser won't parse it as a tag
    assert!(!html.contains("<img"), "Raw <img tag must be escaped");
    assert!(
        html.contains("&lt;img"),
        "Escaped seller name must use &lt;"
    );
    assert!(html.contains("&gt;"), "Closing bracket must be escaped");
}

#[test]
fn test_low_stock_alert_zero_stock() {
    let html = low_stock_alert_html("Out of Stock Item", 0);
    assert!(html.contains("0 units remaining"));
}

#[test]
fn test_abandoned_cart_exactly_three_items_no_more_label() {
    let items = vec![
        CartItem { name: "A".into() },
        CartItem { name: "B".into() },
        CartItem { name: "C".into() },
    ];
    let html = abandoned_cart_html(&items, "User", "en");
    assert!(html.contains("A"));
    assert!(html.contains("B"));
    assert!(html.contains("C"));
    assert!(
        !html.contains("more"),
        "Exactly 3 items should show no 'more' label"
    );
}

#[test]
fn test_abandoned_cart_single_item() {
    let items = vec![CartItem {
        name: "Solo Item".into(),
    }];
    let html = abandoned_cart_html(&items, "Buyer", "en");
    assert!(html.contains("Solo Item"));
    assert!(!html.contains("more"));
}

#[test]
fn test_abandoned_cart_empty_items() {
    let items: Vec<CartItem> = vec![];
    let html = abandoned_cart_html(&items, "Buyer", "en");
    assert!(html.contains("<html"));
    assert!(html.contains("Your cart is waiting"));
}

#[test]
fn test_casl_footer_with_gst() {
    let footer = casl_footer(true, "en");
    assert!(footer.contains(GST_HST_NUMBER));
    assert!(footer.contains(PHYSICAL_ADDRESS));
    assert!(footer.contains(SUPPORT_EMAIL));
    assert!(footer.contains("Unsubscribe"));
}

#[test]
fn test_casl_footer_without_gst() {
    let footer = casl_footer(false, "en");
    assert!(!footer.contains(GST_HST_NUMBER));
    assert!(footer.contains(PHYSICAL_ADDRESS)); // Still has address
}

#[test]
fn test_casl_footer_french() {
    let footer = casl_footer(true, "fr");
    assert!(footer.contains("Se désabonner"));
    assert!(footer.contains("Politique de confidentialité"));
}

#[test]
fn test_email_wrapper_includes_doctype_and_html_structure() {
    let html = email_wrapper("Test", "<tr><td>Content</td></tr>", false, "en");
    assert!(html.starts_with("<!DOCTYPE html>"));
    assert!(html.contains("<html>"));
    assert!(html.contains("</html>"));
    assert!(html.contains("Content"));
}

#[test]
fn test_bilingual_en_fr_are_different() {
    // Verify EN and FR translations are actually different (not duplicated)
    let check_keys = [
        "confirm.hero_h",
        "confirm.hero_s",
        "col.qty",
        "price.subtotal",
        "price.free",
    ];
    for k in check_keys {
        let en = t(k, "en");
        let fr = t(k, "fr");
        assert_ne!(en, fr, "EN and FR should differ for key '{k}'");
    }
}

#[test]
fn test_html_escape_ampersand_and_quotes() {
    assert_eq!(html_escape("A & B"), "A &amp; B");
    assert_eq!(
        html_escape(r#"He said "hello""#),
        "He said &quot;hello&quot;"
    );
    assert_eq!(html_escape("a < b > c"), "a &lt; b &gt; c");
}

#[test]
fn test_seller_notification_short_order_id() {
    // order_id <= 8 chars uses full ID (else branch)
    let order = OrderSummary {
        order_id: "short1".into(),
        items: vec![OrderItem {
            name: "Item".into(),
            quantity: 1,
            price_cents: 500,
        }],
        subtotal_cents: 500,
        shipping_cost_cents: 0,
        tax_amount_cents: 65,
        total_amount_cents: 565,
    };
    let html = seller_notification_html(&order, "Seller");
    assert!(html.contains("short1"), "Full short order ID should appear");
}

#[test]
fn test_abandoned_cart_en_with_more_than_three_items() {
    // English "(and N more)" label
    let items = vec![
        CartItem { name: "X".into() },
        CartItem { name: "Y".into() },
        CartItem { name: "Z".into() },
        CartItem { name: "W".into() },
    ];
    let html = abandoned_cart_html(&items, "Bob", "en");
    assert!(
        html.contains("and 1 more"),
        "English 'more' label should appear"
    );
}

#[test]
fn test_send_email_missing_api_key() {
    // Synchronous check: missing api_key returns MissingCredentials
    // (Cannot call async send_email in sync test, so we verify the error type exists)
    let err = EmailError::MissingCredentials;
    assert_eq!(err.message(), "Missing credentials");
}

#[test]
fn test_shipping_notification_en_with_carrier() {
    let order = sample_order("order_abc123");
    let html =
        shipping_notification_html(&order, "Alice", "1Z999AA10123456784", Some("UPS"), "en");
    assert!(html.contains("Hello Alice"));
    assert!(html.contains("Your order #order_ab is on the way via UPS"));
    assert!(html.contains("1Z999AA10123456784"));
    assert!(html.contains("Order #order_ab shipped"));
    assert!(html.contains("Your order is on the way"));
    assert!(html.contains("Tracking number"));
    assert!(html.contains("Carrier"));
    assert!(html.contains("Track Your Order"));
}

#[test]
fn test_shipping_notification_fr_with_carrier() {
    let order = sample_order("cmd_fr123456");
    let html = shipping_notification_html(&order, "Marie", "FR123456789", Some("FedEx"), "fr");
    assert!(html.contains("Bonjour Marie"));
    assert!(html.contains("Commande #cmd_fr12 expédiée"));
    assert!(html.contains("Votre commande #cmd_fr12 est en route via FedEx"));
    assert!(html.contains("Suivi: FR123456789"));
    assert!(html.contains("Votre commande est en route"));
    assert!(html.contains("Numéro de suivi"));
    assert!(html.contains("Transporteur"));
    assert!(html.contains("Suivre ma commande"));
}

#[test]
fn test_shipping_notification_fr_without_carrier() {
    let order = sample_order("cmd12345678");
    let html = shipping_notification_html(&order, "Pierre", "TN998877", None, "fr");
    assert!(html.contains("Votre commande #cmd12345 est en route. Suivi: TN998877"));
    assert!(!html.contains("via "));
}

#[test]
fn test_shipping_notification_empty_buyer_name() {
    let order = sample_order("ord1234567");
    let html_en = shipping_notification_html(&order, "", "TN123", None, "en");
    assert!(
        html_en.contains("Hello"),
        "Empty buyer name should fallback to 'Hello'"
    );

    let html_fr = shipping_notification_html(&order, "   ", "TN123", None, "fr");
    assert!(
        html_fr.contains("Bonjour"),
        "Whitespace-only buyer name should fallback to 'Bonjour'"
    );
}

#[test]
fn test_shipping_notification_en_without_carrier() {
    let order = sample_order("ord1234567");
    let html = shipping_notification_html(&order, "Bob", "TN00112233", None, "en");
    assert!(html.contains("Your order #ord12345 is on the way. Tracking: TN00112233"));
    assert!(!html.contains("via "));
}

#[test]
fn test_shipping_notification_short_order_id() {
    let order = sample_order("abc");
    let html = shipping_notification_html(&order, "User", "TN1", None, "en");
    assert!(html.contains("#abc"), "Short order ID should be used as-is");
    assert!(!html.contains("#abc."));
}

#[test]
fn test_shipping_notification_exactly_8_char_id() {
    let order = sample_order("12345678");
    let html = shipping_notification_html(&order, "User", "TN1", None, "en");
    assert!(
        html.contains("#12345678"),
        "Exactly 8 char ID should not be truncated"
    );
}

#[test]
fn test_shipping_notification_empty_carrier_string() {
    let order = sample_order("ord1234567");
    let html = shipping_notification_html(&order, "User", "TN123", Some(""), "en");
    assert!(
        !html.contains("via "),
        "Empty carrier string should behave like None"
    );
}

#[test]
fn test_shipping_notification_unknown_lang_defaults_to_en() {
    let order = sample_order("ord1234567");
    let html = shipping_notification_html(&order, "User", "TN1", None, "de");
    assert!(
        html.contains("Hello User"),
        "Unknown lang should default to English"
    );
    assert!(html.contains("Your order"));
}

#[test]
fn test_shipping_notification_produces_valid_html() {
    let order = sample_order("ord1234567");
    let html = shipping_notification_html(&order, "User", "TN1", Some("UPS"), "en");
    assert!(html.contains("<!DOCTYPE html>"));
    assert!(html.contains("</html>"));
    assert!(html.contains(URL_PROD));
}

#[test]
fn amounts_are_written_in_dollars_and_cents() {
    let mut order = sample_order("o1");
    order.items[0].price_cents = -7;
    order.items[0].quantity = 1;
    order.subtotal_cents = 123_456_789;
    order.tax_amount_cents = 5;
    order.total_amount_cents = -150;
    let html = order_confirmation_html(&order, "A", "en");
    assert!(html.contains("$-0.07</td>"));
    assert!(html.contains("$1234567.89</td>"));
    assert!(html.contains("$0.05</td>"));
    assert!(html.contains("$-1.50</td>"));
    assert!(html.contains("$5.00</td>"));
}

#[test]
fn amounts_agree_with_floating_point_formatting() {
    for cents in [0i64, 1, 9, 10, 99, 100, 101, 999, 1000, 6780, -1, -99, -100, 4_503_599_627_370] {
        let mut order = sample_order("o1");
        order.total_amount_cents = cents;
        let html = seller_notification_html(&order, "S");
        let expected = format!("Order #o1 — ${:.2} CAD", cents as f64 / 100.0);
        assert!(html.contains(&expected), "{expected}");
    }
}

#[test]
fn seller_lines_multiply_price_by_quantity() {
    let mut order = sample_order("o1");
    order.items[0].price_cents = 1999;
    order.items[0].quantity = 3;
    let html = seller_notification_html(&order, "S");
    assert!(html.contains("&times;3</td>"));
    assert!(html.contains("$59.97</td>"));
}

#[test]
fn confirmation_rows_multiply_price_by_quantity() {
    let html = order_confirmation_html(&sample_order("o1"), "A", "en");
    assert!(html.contains("&times;2</td>"));
    assert!(html.contains("$30.00</td>"));
    assert!(html.contains("$38.90</td>"));
    assert!(html.contains("$3.90</td>"));
}

#[test]
fn wrapper_is_exact_around_its_content() {
    let html = email_wrapper("T", "C", false, "en");
    let footer = casl_footer(false, "en");
    assert_eq!(
        html,
        format!(
            "<!DOCTYPE html><html><head><meta charset=\"utf-8\"><title>T</title></head>\n\
             <body style=\"margin:0;padding:0;background:#f4f4f8;font-family:Arial,Helvetica,sans-serif;\">\n\
             <table width=\"100%\" cellpadding=\"0\" cellspacing=\"0\" style=\"max-width:640px;margin:0 auto;\">\n\
             C\n{footer}\n</table></body></html>"
        )
    );
}

#[test]
fn escaped_text_is_inert_and_plain_text_unchanged() {
    assert_eq!(html_escape("plain text, déjà vu"), "plain text, déjà vu");
    assert_eq!(html_escape("&amp;"), "&amp;amp;");
    let out = html_escape("<a href=\"x\">&</a>");
    assert!(!out.contains('<') && !out.contains('>') && !out.contains('"'));
    assert_eq!(html_escape(""), "");
}

#[test]
fn shipping_text_is_escaped() {
    let order = sample_order("ord1");
    let html = shipping_notification_html(&order, "<b>", "\"1\"", Some("A&B"), "en");
    assert!(html.contains("Hello &lt;b&gt;,"));
    assert!(html.contains("via A&amp;B. Tracking: &quot;1&quot;."));
}

#[test]
fn cart_lists_three_items_and_counts_the_rest() {
    let items: Vec<CartItem> =
        ["a", "b", "c", "d", "e", "f"].iter().map(|n| CartItem { name: n.to_string() }).collect();
    let html = abandoned_cart_html(&items, "Bob", "en");
    assert!(html.contains("<li>a</li><li>b</li><li>c</li>"));
    assert!(!html.contains("<li>d</li>"));
    assert!(html.contains(" (and 3 more)"));
    assert!(html.contains("Hi Bob,"));
    let html = abandoned_cart_html(&items, "Bob", "FR");
    assert!(html.contains(" (and 3 more)"));
}

#[test]
fn mail_request_carries_basic_credentials() {
    let m = mail_request("key", "secret", "to@example.com", "Hi", "<p>x</p>", &config()).unwrap();
    assert_eq!(m.authorization, "Basic a2V5OnNlY3JldA==");
    assert_eq!(m.from_email, SUPPORT_EMAIL);
    assert_eq!(m.from_name, "Example Shop");
    assert_eq!(m.to_email, "to@example.com");
    assert_eq!(m.subject, "Hi");
    assert_eq!(m.html_body, "<p>x</p>");
    let m = mail_request("a", "?>~", "t", "s", "h", &config()).unwrap();
    assert_eq!(m.authorization, "Basic YTo/Pn4=");
    let m = mail_request("é", "z", "t", "s", "h", &config()).unwrap();
    assert_eq!(m.authorization, "Basic w6k6eg==");
}

#[test]
fn mail_needs_both_keys() {
    for (a, b) in [("", "x"), ("x", ""), ("", "")] {
        let r = mail_request(a, b, "t", "s", "h", &config());
        assert!(matches!(r, Err(EmailError::MissingCredentials)));
    }
}

#[test]
fn mail_answers() {
    assert!(mail_outcome(200, "ok".into()).is_ok());
    assert!(mail_outcome(399, "".into()).is_ok());
    let e = mail_outcome(400, "Bad Request".into()).unwrap_err();
    assert_eq!(e.message(), "Mailjet API error (status 400): Bad Request");
    assert_eq!(EmailError::Http("x".into()).message(), "HTTP request failed: x");
}

#[test]
fn every_email_identifies_its_sender() {
    let order = sample_order("o1");
    let unsubscribe = ["Unsubscribe from marketing emails", "Se désabonner des courriels promotionnels"];
    for (html, lang, gst) in [
        (order_confirmation_html(&order, "A", "en"), 0, true),
        (order_confirmation_html(&order, "A", "fr"), 1, true),
        (seller_notification_html(&order, "S"), 0, false),
        (low_stock_alert_html("P", 1), 0, false),
        (abandoned_cart_html(&[], "B", "fr"), 1, false),
        (shipping_notification_html(&order, "B", "1", None, "fr"), 1, true),
    ] {
        assert!(html.contains(PHYSICAL_ADDRESS));
        assert!(html.contains(SUPPORT_EMAIL));
        assert!(html.contains("privacy@example.com"));
        assert!(html.contains(unsubscribe[lang]));
        assert_eq!(html.contains(GST_HST_NUMBER), gst);
    }
}

#[test]
fn low_stock_digests_list_their_products() {
    let line = |name: &str, stock: u32| LowStockLine { product_name: name.into(), stock };
    let one = low_stock_digest_html(&vec![line("Milk", 1)], &config());
    assert_eq!(one, low_stock_alert_html("Milk", 1));
    let two = low_stock_digest_html(&vec![line("Milk", 1), line("<Tea>", 4)], &config());
    assert!(two.contains("<strong>Milk</strong>"));
    assert!(two.contains("1 unit remaining"));
    assert!(two.contains("<strong>&lt;Tea&gt;</strong>"));
    assert!(two.contains("4 units remaining"));
    assert!(two.contains(&config().physical_address));
}

#[test]
fn notices_are_escaped() {
    let html = notice_html("A & B", "x < y", "fr", &config());
    assert!(html.contains("<title>A &amp; B</title>"));
    assert!(html.contains("x &lt; y"));
    assert!(html.contains("Se désabonner"));
}

#[test]
fn seller_rows_keep_the_sign_of_a_price() {
    let shown = |price_cents: i64, quantity: u32| {
        let order = OrderSummary {
            order_id: "o1".into(),
            items: vec![OrderItem { name: "N".into(), quantity, price_cents }],
            subtotal_cents: 0,
            shipping_cost_cents: 0,
            tax_amount_cents: 0,
            total_amount_cents: 0,
        };
        let html = seller_notification_html(&order, "S");
        let price = format!(
            r#"border-bottom:1px solid #eee;">${:.2}</td></tr>"#,
            price_cents as f64 / 100.0 * quantity as f64
        );
        html.contains(&price)
    };
    assert!(shown(-500, 0));
    assert!(shown(-500, 2));
    assert!(shown(500, 0));
    assert!(shown(0, 0));
    assert!(shown(1999, 3));
}

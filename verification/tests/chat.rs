use ob_handlers::auth::AuthContext;
use ob_handlers::chat::flow::{
    next_open_step, next_send_step, OpenAnswers, OpenStep, SendAnswers, SendStep,
};
use ob_handlers::chat::sanitize::redact_phone;
use ob_handlers::chat::support::{
    failure_answer, model_request, support_answer, SupportFailure, SUPPORT_MAX_TOKENS,
    SUPPORT_SYSTEM_PROMPT,
};
use ob_handlers::chat::{
    check_mark_read, check_message_request, check_participant, check_report,
    checked_thread_update, compose_message,
    decide_deletion, erasure, is_premium, read_marks, unread_by, mark_read_outcome, message_id_for, message_notice,
    message_report, open_chat, parse_rfc3339, prepare_message, product_scoped_chat_id, recipient,
    requested_product, stored_message, thread_update, Deletion, GetOrCreateChatRequest,
    MarkReadRequest, PendingMessage, ReportMessageRequest, SendMessageRequest, SupportChatRequest,
    SupportMessage,
};
use ob_handlers::error::Error;
use ob_handlers::time::Timestamp;

// 2026-03-10T12:00:00Z
const NOW: Timestamp = Timestamp { secs: 1_773_144_000, nanos: 0 };
const STAMP: &str = "2026-03-10T12:00:00+00:00";

fn json(s: &str) -> serde_json::Value {
    serde_json::from_str(s).unwrap()
}

/// Drops everything between angle brackets.
fn strip_tags(s: &str) -> String {
    let mut out = String::new();
    let mut inside = false;
    for c in s.chars() {
        match c {
            '<' => inside = true,
            '>' if inside => inside = false,
            c if !inside => out.push(c),
            _ => {}
        }
    }
    out
}

fn _sanitize_text(text: &str) -> String {
    ob_handlers::chat::_sanitize_text(text, strip_tags).unwrap()
}

fn user(id: &str) -> AuthContext {
    AuthContext { authenticated: true, user_id: id.into(), roles: vec![] }
}

fn admin(id: &str) -> AuthContext {
    AuthContext { authenticated: true, user_id: id.into(), roles: vec!["admin".into()] }
}

fn send(text: Option<&str>, images: Option<Vec<&str>>) -> SendMessageRequest {
    SendMessageRequest {
        chat_id: "c1".into(),
        message_text: text.map(|s| s.to_string()),
        image_urls: images.map(|v| v.into_iter().map(|s| s.to_string()).collect()),
        message_id: None,
    }
}

fn pending(sender: &str, text: &str, id: Option<&str>) -> PendingMessage {
    PendingMessage {
        chat_id: "c1".into(),
        sender_id: sender.into(),
        text: text.into(),
        image_urls: vec![],
        message_id: id.map(|s| s.to_string()),
    }
}

#[test]
fn test_sanitize_chat_text() {
    assert_eq!(_sanitize_text("<b>hello</b>"), "hello");
    assert!(!_sanitize_text("<script>alert('xss')</script>").contains("<script>"));
    assert!(!_sanitize_text("Click: javascript:void(0)").contains("javascript:"));

    let result = _sanitize_text("Contact me at test@example.com please");
    assert!(result.contains("[email removed]"));
    assert!(!result.contains("test@example.com"));

    let result = _sanitize_text("Email me at test (at) example.com");
    assert!(result.contains("[email removed]"));

    assert!(_sanitize_text("Check http://example.com").contains("[link removed]"));
    assert!(_sanitize_text("Visit https://evil.com").contains("[link removed]"));
    assert!(_sanitize_text("Go to www.example.com").contains("[link removed]"));

    assert!(_sanitize_text("Call me at 416-555-1234").contains("[phone removed]"));

    // Zero-width
    assert_eq!(
        _sanitize_text("test\u{200B}@\u{200B}example.com"),
        "[email removed]"
    );
}

#[test]
fn test_product_scoped_chat_id() {
    assert_eq!(product_scoped_chat_id("p1", "b1"), "p1_b1");
}

#[test]
fn test_parse_rfc3339() {
    assert!(parse_rfc3339("2026-03-10T12:00:00Z").is_some());
    assert!(parse_rfc3339("invalid").is_none());
}

#[test]
fn test_sanitize_text_short_number_not_redacted() {
    // A number with fewer than 10 digits should NOT be redacted
    let result = _sanitize_text("Call me at 12345");
    assert!(
        !result.contains("[phone removed]"),
        "Short number should not be redacted: {result}"
    );
}

#[test]
fn test_sanitize_once_lock_regex_reuse() {
    let first = _sanitize_text("test@example.com");
    let second = _sanitize_text("another@test.org");
    let third = _sanitize_text("https://evil.com +1-416-555-1234");
    assert!(first.contains("[email removed]"));
    assert!(second.contains("[email removed]"));
    assert!(third.contains("[link removed]"));
    assert!(third.contains("[phone removed]"));
}

#[test]
fn test_sanitize_preserves_safe_text() {
    let safe = "Hello, this is a normal message about products.";
    assert_eq!(_sanitize_text(safe), safe);
}

#[test]
fn test_sanitize_empty_input() {
    assert_eq!(_sanitize_text(""), "");
}

#[test]
fn sanitizing_takes_out_what_it_should() {
    assert_eq!(_sanitize_text("  a <SCRIPT src=x>b</SCRIPT> c  "), "a  c");
    assert_eq!(_sanitize_text("JavaScript:alert(1)"), "alert(1)");
    assert_eq!(_sanitize_text("see HTTPS://x.y/z?q=1 ok"), "see [link removed] ok");
    assert_eq!(_sanitize_text("a\u{FEFF}b"), "ab");
    assert_eq!(_sanitize_text("call (416) 555-1234 now"), "call[phone removed] now");
}

#[test]
fn phone_numbers_have_ten_to_fifteen_digits() {
    assert_eq!(redact_phone("123-456-7890"), "[phone removed]");
    assert_eq!(redact_phone("123456789012345"), "[phone removed]");
    assert_eq!(redact_phone("1234567890123456"), "1234567890123456");
    assert_eq!(redact_phone("123 456 789"), "123 456 789");
    assert_eq!(redact_phone("١٢٣٤٥٦٧٨٩٠"), "١٢٣٤٥٦٧٨٩٠");
}

#[test]
fn message_requests_are_checked_in_order() {
    let err = |auth: &AuthContext, req: SendMessageRequest, clean: &str| {
        prepare_message(auth, req, clean.into()).err().unwrap()
    };
    let v = |m: &str| Error::Validation(m.into());
    assert_eq!(
        err(&AuthContext::anonymous(), send(None, None), ""),
        Error::Auth("Authentication required.".into())
    );
    let u = user("u1");
    assert_eq!(err(&u, send(None, None), ""), v("chatId and text/images required."));
    assert_eq!(err(&u, send(Some(""), Some(vec![])), ""), v("chatId and text/images required."));
    let mut no_chat = send(Some("x"), None);
    no_chat.chat_id = "".into();
    assert_eq!(err(&u, no_chat, "x"), v("chatId and text/images required."));
    let good = "https://cdn.example.com/a.png";
    assert_eq!(
        err(&u, send(None, Some(vec![good; 6])), ""),
        v("Maximum 5 images per message.")
    );
    assert_eq!(
        err(&u, send(None, Some(vec!["https://x.com/a", "http://cdn.x/a"])), ""),
        v("Image URLs must use HTTPS")
    );
    assert_eq!(
        err(&u, send(None, Some(vec![good, "https://x.com/a"])), ""),
        v("Chat images must be uploaded to the Origna CDN before sending.")
    );
    assert_eq!(
        err(&u, send(Some("<b></b>"), None), ""),
        v("Message text is too short after sanitization.")
    );
    assert_eq!(
        err(&u, send(Some("x"), None), &"x".repeat(2001)),
        v("Message exceeds 2000 characters.")
    );
    assert_eq!(
        err(&u, send(Some("x"), None), &"é".repeat(1001)),
        v("Message exceeds 2000 characters.")
    );
    let ok = prepare_message(&u, send(Some("  "), None), "".into()).unwrap();
    assert_eq!(ok.text, "");
    let bucket = "https://storage.googleapis.com/x";
    let ok = prepare_message(&u, send(None, Some(vec![good, bucket])), "".into()).unwrap();
    assert_eq!(ok.image_urls.len(), 2);
    assert_eq!(ok.sender_id, "u1");
    assert!(prepare_message(&u, send(Some("x"), None), "x".repeat(2000)).is_ok());
}

#[test]
fn composed_message_is_sanitized() {
    let m = compose_message(&user("u1"), send(Some("<i>mail me@x.org</i>"), None), strip_tags)
        .unwrap()
        .unwrap();
    assert_eq!(m.text, "mail [email removed]");
    assert_eq!(m.chat_id, "c1");
    let e = compose_message(&user("u1"), send(Some("<i></i>"), None), strip_tags).unwrap();
    assert!(e.is_err());
}

fn answers<'a>(chat: &'a serde_json::Value) -> SendAnswers<'a> {
    SendAnswers {
        chat: Some(Some(chat)),
        premium: None,
        rate_passed: false,
        existing: None,
        sender: None,
    }
}

fn refused(s: SendStep) -> Error {
    match s {
        SendStep::Refuse(e) => e,
        other => panic!("{other:?}"),
    }
}

#[test]
fn sending_asks_and_decides_in_order() {
    let chat = json(r#"{"buyerId": "b", "sellerId": "s"}"#);
    let m = pending("b", "hi", Some("m1"));
    let mut a = answers(&chat);
    a.chat = None;
    assert!(matches!(next_send_step(&m, &a, NOW), SendStep::LookUpChat));
    a.chat = Some(None);
    assert_eq!(
        refused(next_send_step(&m, &a, NOW)),
        Error::NotFound("Chat thread not found.".into())
    );
    a.chat = Some(Some(&chat));
    assert!(matches!(next_send_step(&m, &a, NOW), SendStep::LookUpPremium));
    a.premium = Some(false);
    assert_eq!(
        refused(next_send_step(&m, &a, NOW)),
        Error::Forbidden("Premium required.".into())
    );
    a.premium = Some(true);
    assert!(matches!(next_send_step(&m, &a, NOW), SendStep::CheckRate));
    a.rate_passed = true;
    assert!(matches!(next_send_step(&m, &a, NOW), SendStep::LookUpExisting));
    let stored = json("{}");
    a.existing = Some(&stored);
    assert!(matches!(next_send_step(&m, &a, NOW), SendStep::Replay));
    let none = serde_json::Value::Null;
    a.existing = Some(&none);
    assert!(matches!(next_send_step(&m, &a, NOW), SendStep::LookUpSender));
    a.sender = Some(&none);
    assert!(matches!(next_send_step(&m, &a, NOW), SendStep::Store));
    let fresh = pending("s", "hi", None);
    let mut a = answers(&chat);
    assert!(matches!(next_send_step(&fresh, &a, NOW), SendStep::CheckRate));
    a.rate_passed = true;
    assert!(matches!(next_send_step(&fresh, &a, NOW), SendStep::LookUpSender));
}

#[test]
fn threads_refuse_outsiders_repeats_and_overflow() {
    let chat = json(
        r#"{"buyerId": "b", "sellerId": "s", "lastMessageText": "hi", "updatedAt": "2026-03-10T11:59:56Z"}"#,
    );
    assert_eq!(
        refused(next_send_step(&pending("x", "hi", None), &answers(&chat), NOW)),
        Error::Forbidden("Access denied.".into())
    );
    assert_eq!(
        refused(next_send_step(&pending("s", "hi", None), &answers(&chat), NOW)),
        Error::Validation("Message already sent.".into())
    );
    let later = Timestamp { secs: NOW.secs + 1, nanos: 0 };
    assert!(matches!(
        next_send_step(&pending("s", "hi", None), &answers(&chat), later),
        SendStep::CheckRate
    ));
    let just = Timestamp { secs: NOW.secs, nanos: 999_999_999 };
    assert!(matches!(
        next_send_step(&pending("s", "hi", None), &answers(&chat), just),
        SendStep::Refuse(_)
    ));
    assert!(matches!(
        next_send_step(&pending("s", "other", None), &answers(&chat), NOW),
        SendStep::CheckRate
    ));
    let full = json(r#"{"buyerId": "b", "sellerId": "s", "messageCount": 10000}"#);
    assert_eq!(
        refused(next_send_step(&pending("s", "hi", None), &answers(&full), NOW)),
        Error::Validation("Chat limit reached for this thread.".into())
    );
    let nearly = json(r#"{"buyerId": "b", "sellerId": "s", "messageCount": 9999}"#);
    assert!(matches!(
        next_send_step(&pending("s", "hi", None), &answers(&nearly), NOW),
        SendStep::CheckRate
    ));
}

#[test]
fn stored_messages() {
    let m = stored_message(pending("b", "hi", None), &json(r#"{"name": "Bea"}"#), NOW);
    assert_eq!(m.sender_display_name, "Bea");
    assert_eq!(m.created_at, STAMP);
    assert_eq!((m.chat_id.as_str(), m.sender_id.as_str()), ("c1", "b"));
    assert!(!m.read && !m.deleted);
    let m = stored_message(pending("b", "hi", None), &serde_json::Value::Null, NOW);
    assert_eq!(m.sender_display_name, "Someone");
    assert_eq!(message_id_for(&pending("b", "hi", Some("m1"))), "m1");
    let id = message_id_for(&pending("b", "hi", None));
    assert_eq!(id.len(), 36);
    assert_eq!(&id[14..15], "4");
}

#[test]
fn threads_count_messages_for_the_other_side() {
    let chat = json(
        r#"{"buyerId": "b", "sellerId": "s", "messageCount": 4, "sellerUnreadCount": 2, "buyerUnreadCount": 7}"#,
    );
    let u = thread_update("b", "hello", &chat, NOW);
    assert_eq!((u.message_count, u.for_seller, u.unread_count), (5, true, 3));
    assert_eq!(u.first_buyer_message_at.as_deref(), Some(STAMP));
    assert_eq!(u.first_seller_reply_at, None);
    assert_eq!(u.last_message, "hello");
    assert_eq!(u.updated_at, STAMP);
    let u = thread_update("s", "hello", &chat, NOW);
    assert_eq!((u.for_seller, u.unread_count), (false, 8));
    assert_eq!(u.first_buyer_message_at, None);
    assert_eq!(u.first_seller_reply_at, None);
    let long = "x".repeat(150);
    let u = thread_update("s", &long, &json("{}"), NOW);
    assert_eq!(u.last_message.len(), 100);
    assert_eq!(u.last_message_text, long);
    assert_eq!((u.message_count, u.unread_count), (1, 1));
}

#[test]
fn first_reply_is_timed() {
    let chat = json(
        r#"{"buyerId": "b", "sellerId": "s", "firstBuyerMessageAt": "2026-03-10T10:29:30Z"}"#,
    );
    let u = thread_update("s", "hi", &chat, NOW);
    assert_eq!(u.first_seller_reply_at.as_deref(), Some(STAMP));
    assert_eq!(u.first_reply_minutes, Some(90));
    let u = thread_update("b", "hi", &chat, NOW);
    assert_eq!(u.first_buyer_message_at, None);
    assert_eq!(u.first_reply_minutes, None);
    let replied = json(
        r#"{"buyerId": "b", "sellerId": "s", "firstBuyerMessageAt": "2026-03-10T10:29:30Z", "firstSellerReplyAt": null}"#,
    );
    assert_eq!(thread_update("s", "hi", &replied, NOW).first_reply_minutes, None);
}

#[test]
fn notices_go_to_the_other_side() {
    let chat = json(r#"{"buyerId": "b", "sellerId": "s"}"#);
    assert_eq!(recipient("b", &chat), "s");
    assert_eq!(recipient("s", &chat), "b");
    assert_eq!(message_notice("Bea", "hi"), ("Message from Bea".into(), "hi".into()));
    assert_eq!(message_notice("Bea", ""), ("Message from Bea".into(), "Sent an image".into()));
}

#[test]
fn opening_a_chat_asks_and_decides_in_order() {
    let refused = |s: OpenStep| match s {
        OpenStep::Refuse(e) => e,
        other => panic!("{other:?}"),
    };
    let mut a = OpenAnswers { premium: None, product: None, orders: None, existing: None };
    assert!(matches!(next_open_step("b", "p", &a), OpenStep::LookUpPremium));
    a.premium = Some(false);
    assert_eq!(
        refused(next_open_step("b", "p", &a)),
        Error::Forbidden("Premium subscription required to chat with sellers.".into())
    );
    a.premium = Some(true);
    assert!(matches!(next_open_step("b", "p", &a), OpenStep::LookUpProduct));
    let null = serde_json::Value::Null;
    a.product = Some(&null);
    assert_eq!(
        refused(next_open_step("b", "p", &a)),
        Error::NotFound("Product not found.".into())
    );
    let draft = json(r#"{"lifecycleStatus": "active", "sellerId": "s"}"#);
    a.product = Some(&draft);
    assert_eq!(
        refused(next_open_step("b", "p", &a)),
        Error::NotFound("Product is no longer active.".into())
    );
    let product = json(r#"{"lifecycleStatus": "ACTIVE", "sellerId": "s"}"#);
    a.product = Some(&product);
    assert_eq!(
        refused(next_open_step("s", "p", &a)),
        Error::Forbidden("You cannot chat with yourself.".into())
    );
    assert!(matches!(next_open_step("b", "p", &a), OpenStep::LookUpOrders));
    let none = vec![json(r#"{"productIds": ["q", 1]}"#), json(r#"{"productIds": "p"}"#)];
    a.orders = Some(&none);
    assert_eq!(
        refused(next_open_step("b", "p", &a)),
        Error::Validation(
            "You must have a delivered order for this product before starting a chat with the seller."
                .into()
        )
    );
    let some = vec![json("{}"), json(r#"{"productIds": ["q", "p"]}"#)];
    a.orders = Some(&some);
    assert!(matches!(next_open_step("b", "p", &a), OpenStep::LookUpChat));
    a.existing = Some(&null);
    assert!(matches!(next_open_step("b", "p", &a), OpenStep::Answer));
}

#[test]
fn chats_are_created_once() {
    let product = json(r#"{"sellerId": "s", "name": "Mug", "imageUrls": ["i1", "i2"]}"#);
    let (answer, record) = open_chat(&product, "p", "b", &serde_json::Value::Null, NOW);
    assert_eq!((answer.chat_id.as_str(), answer.is_new), ("p_b", true));
    let c = record.unwrap();
    assert_eq!(c.chat_id, "p_b");
    assert_eq!((c.buyer_id.as_str(), c.seller_id.as_str()), ("b", "s"));
    assert_eq!((c.product_title.as_str(), c.product_image_url.as_str()), ("Mug", "i1"));
    assert_eq!((c.message_count, c.buyer_unread_count, c.seller_unread_count), (0, 0, 0));
    assert_eq!(c.created_at, STAMP);
    let (answer, record) = open_chat(&product, "p", "b", &json("{}"), NOW);
    assert_eq!((answer.chat_id.as_str(), answer.is_new), ("p_b", false));
    assert!(record.is_none());
    let (_, record) = open_chat(&json("{}"), "p", "b", &serde_json::Value::Null, NOW);
    let c = record.unwrap();
    assert_eq!((c.product_title.as_str(), c.product_image_url.as_str()), ("Product", ""));
}

#[test]
fn a_chat_needs_a_product() {
    let req = |p: Option<&str>| GetOrCreateChatRequest {
        other_user_id: "s".into(),
        product_id: p.map(|s| s.to_string()),
    };
    assert_eq!(
        requested_product(&AuthContext::anonymous(), &req(Some("p"))),
        Err(Error::Auth("Authentication required.".into()))
    );
    for p in [None, Some(""), Some("  ")] {
        assert_eq!(
            requested_product(&user("b"), &req(p)),
            Err(Error::Validation("productId is required.".into()))
        );
    }
    assert_eq!(requested_product(&user("b"), &req(Some(" p "))), Ok("p"));
}

#[test]
fn premium_subscriptions() {
    assert!(is_premium(&json(r#"{"status": "active"}"#)));
    assert!(!is_premium(&json(r#"{"status": "past_due"}"#)));
    assert!(!is_premium(&serde_json::Value::Null));
}

#[test]
fn marking_read() {
    let req = |c: &str| MarkReadRequest { chat_id: c.into() };
    assert_eq!(
        check_mark_read(&AuthContext::anonymous(), &req("")),
        Err(Error::Auth("Authentication required.".into()))
    );
    assert_eq!(
        check_mark_read(&user("b"), &req("")),
        Err(Error::Validation("chatId is required.".into()))
    );
    assert_eq!(check_mark_read(&user("b"), &req("c")), Ok(()));
    let chat = json(r#"{"buyerId": "b", "sellerId": "s"}"#);
    assert_eq!(check_participant("x", &chat), Err(Error::Forbidden("Access denied.".into())));
    assert_eq!(check_participant("s", &chat), Ok(()));
    let (answer, field) = mark_read_outcome("b", &chat, 3);
    assert_eq!((answer.success, answer.count, field), (true, 3, Some("buyerUnreadCount")));
    assert_eq!(mark_read_outcome("s", &chat, 1).1, Some("sellerUnreadCount"));
    assert_eq!(mark_read_outcome("s", &chat, 0).1, None);
}

#[test]
fn deleting_messages() {
    assert_eq!(
        check_message_request(&AuthContext::anonymous(), "c", "m"),
        Err(Error::Auth("Authentication required.".into()))
    );
    for (c, m) in [("", "m"), ("c", "")] {
        assert_eq!(
            check_message_request(&user("b"), c, m),
            Err(Error::Validation("chatId and messageId required.".into()))
        );
    }
    assert_eq!(check_message_request(&user("b"), "c", "m"), Ok(()));
    let m = json(r#"{"senderId": "b"}"#);
    assert_eq!(
        decide_deletion(&user("b"), &serde_json::Value::Null),
        Err(Error::NotFound("Message not found.".into()))
    );
    assert_eq!(decide_deletion(&user("b"), &m), Ok(Deletion::Erase));
    assert_eq!(decide_deletion(&admin("x"), &m), Ok(Deletion::Erase));
    assert_eq!(
        decide_deletion(&user("x"), &m),
        Err(Error::Forbidden("Only the sender or an admin can delete a message.".into()))
    );
    let gone = json(r#"{"senderId": "b", "deleted": true}"#);
    for who in [user("b"), user("x"), admin("x")] {
        assert_eq!(decide_deletion(&who, &gone), Ok(Deletion::AlreadyDone));
    }
}

#[test]
fn reporting_messages() {
    assert_eq!(
        check_report("b", &serde_json::Value::Null),
        Err(Error::NotFound("Chat thread not found.".into()))
    );
    let chat = json(r#"{"buyerId": "b", "sellerId": "s"}"#);
    assert_eq!(
        check_report("x", &chat),
        Err(Error::Forbidden("You are not a participant in this chat.".into()))
    );
    assert_eq!(check_report("s", &chat), Ok(()));
    let req = |reason: Option<&str>| ReportMessageRequest {
        chat_id: "c".into(),
        message_id: "m".into(),
        reason: reason.map(|s| s.to_string()),
    };
    assert_eq!(
        message_report("r".into(), req(None), "b", &serde_json::Value::Null, NOW).err(),
        Some(Error::NotFound("Message not found.".into()))
    );
    let m = json(r#"{"messageText": "t", "senderId": "s"}"#);
    let r = message_report("r".into(), req(None), "b", &m, NOW).unwrap();
    assert_eq!(r.reason, "Inappropriate content");
    assert_eq!((r.message_text.as_str(), r.sender_id.as_str()), ("t", "s"));
    assert_eq!((r.reporter_id.as_str(), r.status.as_str()), ("b", "pending"));
    assert_eq!(r.created_at, STAMP);
    let r = message_report("r".into(), req(Some("spam")), "b", &json("{}"), NOW).unwrap();
    assert_eq!((r.reason.as_str(), r.message_text.as_str()), ("spam", ""));
}

#[test]
fn support_answers() {
    let a = support_answer(&vec!["I will ESCALATE this.".into(), "x".into()]);
    assert_eq!(a.reply, "I will ESCALATE this.");
    assert!(a.escalated);
    for (text, expected) in [
        ("A Human Agent will call", true),
        ("ask a Supervisor", true),
        ("the Manager knows", true),
        ("all done", false),
    ] {
        assert_eq!(support_answer(&vec![text.to_string()]).escalated, expected);
    }
    let none = support_answer(&vec![]);
    assert_eq!((none.reply.as_str(), none.escalated), ("", false));
}

#[test]
fn support_requests_and_failures() {
    let payload = SupportChatRequest {
        messages: vec![SupportMessage { role: "user".into(), content: "hi".into() }],
        customer_email: "a@x".into(),
        customer_id: "a".into(),
    };
    let r = model_request(payload, "m-1");
    assert_eq!((r.model.as_str(), r.max_tokens), ("m-1", SUPPORT_MAX_TOKENS));
    assert_eq!(r.max_tokens, 1024);
    assert_eq!(r.system, SUPPORT_SYSTEM_PROMPT);
    assert_eq!(r.messages[0].content, "hi");
    for (f, status, m) in [
        (SupportFailure::NotConfigured, 500, "Configuration error: AI service unavailable"),
        (SupportFailure::TimedOut, 504, "Support service timeout"),
        (SupportFailure::Unreachable, 502, "Support service unavailable"),
        (SupportFailure::Refused, 502, "Support service error"),
        (SupportFailure::Unreadable, 500, "Response parsing error"),
    ] {
        assert_eq!(failure_answer(f), (status, m.to_string()));
    }
}

#[test]
fn thread_updates_that_do_not_fit_are_told() {
    let chat = json(r#"{"buyerId": "b", "sellerId": "s", "sellerUnreadCount": 9223372036854775807}"#);
    assert!(checked_thread_update("b", "hi", &chat, NOW).is_none());
    assert!(checked_thread_update("s", "hi", &chat, NOW).is_some());
    let split = format!("{}é", "x".repeat(99));
    assert!(checked_thread_update("s", &split, &chat, NOW).is_none());
    let whole = format!("{}éy", "x".repeat(98));
    let u = checked_thread_update("s", &whole, &chat, NOW).unwrap();
    assert_eq!(u.last_message, format!("{}é", "x".repeat(98)));
    let full = json(r#"{"messageCount": 9223372036854775807}"#);
    assert!(checked_thread_update("s", "hi", &full, NOW).is_none());
}

#[test]
fn reading_marks_what_the_other_side_sent() {
    let message = |chat: &str, from: &str, read: bool| {
        json(&format!(r#"{{"chatId": "{chat}", "senderId": "{from}", "read": {read}}}"#))
    };
    let mut messages = vec![
        message("c", "s", false),
        message("c", "b", false),
        message("d", "s", false),
        message("c", "s", true),
        message("c", "s", false),
        json(r#"{"chatId": "c", "senderId": "s"}"#),
        json(r#"{"chatId": "c", "read": false}"#),
    ];
    assert!(unread_by(&messages[0], "c", "b"));
    assert!(!unread_by(&messages[1], "c", "b"));
    let marks = read_marks(&messages, "c", "b");
    assert_eq!(marks.positions, vec![0, 4]);
    assert!(marks.read);
    for i in marks.positions {
        messages[i]["read"] = serde_json::Value::Bool(marks.read);
    }
    assert!(read_marks(&messages, "c", "b").positions.is_empty());
    assert_eq!(messages[1]["read"], false);
    assert_eq!(read_marks(&messages, "c", "s").positions, vec![1]);
}

#[test]
fn erasing_leaves_no_text_and_no_images() {
    let e = erasure(NOW);
    assert!(e.deleted);
    assert_eq!(e.message_text, "");
    assert!(e.image_urls.is_empty());
    assert_eq!(e.updated_at, "2026-03-10T12:00:00+00:00");
    let mut m = json(r#"{"senderId": "b", "messageText": "hi", "imageUrls": ["u"]}"#);
    assert_eq!(decide_deletion(&user("b"), &m), Ok(Deletion::Erase));
    m["deleted"] = serde_json::Value::Bool(e.deleted);
    assert_eq!(decide_deletion(&user("b"), &m), Ok(Deletion::AlreadyDone));
    assert_eq!(decide_deletion(&user("x"), &m), Ok(Deletion::AlreadyDone));
}

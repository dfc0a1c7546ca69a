use ob_handlers::digital::{
    activate_license, check_activation_request, check_deactivation_request, check_download_request,
    check_entitlement, check_license_key, deactivate_license, download_token, fresh_download_token,
    is_valid_license_key, redirect_target, token_key, token_state_at, validate_redirect_token_state,
    validate_string_token, verify_license, ActivateLicenseRequest, DeactivateLicenseRequest,
    DigitalKind, DownloadRequest,
};
use ob_handlers::error::Error;
use ob_handlers::rules;
use ob_handlers::time::Timestamp;

const KEY: &str = "ABCD-1234-EFGH-5678";

// 2026-03-10T12:00:00Z
const NOW: Timestamp = Timestamp { secs: 1_773_144_000, nanos: 0 };
const STAMP: &str = "2026-03-10T12:00:00+00:00";

fn json(s: &str) -> serde_json::Value {
    serde_json::from_str(s).unwrap()
}

fn license(activations: &str, limit: &str) -> serde_json::Value {
    json(&format!(
        r#"{{"status": "active", "userId": "u1", "productName": "Pro", "activations": {activations}{limit}}}"#
    ))
}

#[test]
fn test_license_key_validation() {
    assert!(is_valid_license_key("ABCD-1234-EFGH-5678"));
    assert!(is_valid_license_key("AAAA-BBBB-CCCC-DDDD"));
    assert!(!is_valid_license_key("abcd-1234-efgh-5678")); // lowercase
    assert!(!is_valid_license_key("ABCD12345678EFGH")); // no dashes
    assert!(!is_valid_license_key("ABCD-1234")); // too short
    assert!(!is_valid_license_key("")); // empty
    assert!(!is_valid_license_key("ABCD-1234-EFGH-567!")); // special char
}

#[test]
fn test_license_key_validation_rejects_whitespace_and_wrong_segment_lengths() {
    assert!(!is_valid_license_key(" ABCD-1234-EFGH-5678"));
    assert!(!is_valid_license_key("ABCD-123-EEEE-FFFF"));
    assert!(!is_valid_license_key("ABCDE-1234-EFGH-5678"));
}

#[test]
fn test_license_key_case_normalization() {
    let input = "abcd-1234-efgh-5678";
    let normalized = input.trim().to_uppercase();
    assert_eq!(normalized, "ABCD-1234-EFGH-5678");
    assert!(is_valid_license_key(&normalized));
}

#[test]
fn test_license_key_whitespace_trimming() {
    let input = "  ABCD-1234-EFGH-5678  ";
    let trimmed = input.trim().to_uppercase();
    assert!(is_valid_license_key(&trimmed));
}

#[test]
fn test_license_key_invalid_formats() {
    // Short key
    assert!(!is_valid_license_key("bad"));
    // No dashes
    assert!(!is_valid_license_key("ABCDEFGHIJKLMNOP"));
    // Wrong segment count
    assert!(!is_valid_license_key("ABCD-1234"));
    assert!(!is_valid_license_key("ABCD-1234-EFGH-5678-XXXX"));
    // Special characters
    assert!(!is_valid_license_key("ABCD-1234-EF!H-5678"));
    // Lowercase (before normalization)
    assert!(!is_valid_license_key("abcd-1234-efgh-5678"));
}

#[test]
fn test_deactivate_empty_device_id_rejected() {
    let device_id = "";
    assert!(device_id.is_empty());
}

#[test]
fn test_device_limit_logic() {
    // Under limit -> allow
    let activations_count = 2;
    let device_limit: u64 = 3;
    assert!(activations_count < device_limit as usize);

    // At limit -> reject
    let activations_count = 3;
    assert!(activations_count >= device_limit as usize);

    // Unlimited (None -> default)
    let default_limit = rules::MAX_DEVICES_PER_LICENSE as u64;
    assert!(default_limit > 0);
}

#[test]
fn test_validate_string_token_empty() {
    assert!(validate_string_token("t", "").is_err());
    assert!(validate_string_token("t", "   ").is_err());
}

#[test]
fn test_validate_string_token_too_long() {
    let long = "x".repeat(256);
    assert!(validate_string_token("t", &long).is_err());
}

#[test]
fn test_validate_string_token_valid() {
    assert!(validate_string_token("t", "tok_abc123").is_ok());
}

#[test]
fn test_download_token_minutes_constant() {
    assert_eq!(rules::DOWNLOAD_TOKEN_MINUTES, 15);
}

#[test]
fn test_license_status_check_logic() {
    let statuses = ["active", "revoked", "expired", "suspended"];
    // Only "active" should be valid
    for status in &statuses {
        let is_valid = *status == "active";
        if *status == "active" {
            assert!(is_valid);
        } else {
            assert!(!is_valid);
        }
    }
}

#[test]
fn test_digital_type_validation_for_book() {
    let digital_type = "book";
    assert_eq!(digital_type, "book");
    assert_ne!(digital_type, "software");
}

#[test]
fn test_digital_type_validation_for_software() {
    let digital_type = "software";
    assert_eq!(digital_type, "software");
    assert_ne!(digital_type, "book");
}

#[test]
fn test_ownership_check_logic() {
    let owner_id = "buyer_1";
    let caller_id = "buyer_1";
    assert_eq!(owner_id, caller_id);

    let attacker_id = "attacker";
    assert_ne!(owner_id, attacker_id);
}

#[test]
fn test_download_token_format() {
    let token = format!("tok_{}", hex::encode(uuid::Uuid::new_v4().as_bytes()));
    assert!(token.starts_with("tok_"));
    assert!(token.len() > 4);
}

#[test]
fn test_idempotent_reactivation_logic() {
    // Simulate: device_id already in activations list
    let activations = vec![
        json(r#"{"deviceId": "dev_1", "platform": "macos"}"#),
        json(r#"{"deviceId": "dev_2", "platform": "windows"}"#),
    ];
    let target_device = "dev_1";
    let found = activations
        .iter()
        .any(|a| a.get("deviceId").and_then(|v| v.as_str()) == Some(target_device));
    assert!(
        found,
        "Existing device should be found for idempotent reactivation"
    );

    // Device not in list
    let new_device = "dev_3";
    let found2 = activations
        .iter()
        .any(|a| a.get("deviceId").and_then(|v| v.as_str()) == Some(new_device));
    assert!(!found2);
}

#[test]
fn test_deactivation_removes_device_from_list() {
    let activations = vec![
        json(r#"{"deviceId": "dev_1"}"#),
        json(r#"{"deviceId": "dev_2"}"#),
        json(r#"{"deviceId": "dev_3"}"#),
    ];
    let to_remove = "dev_2";
    let remaining: Vec<_> = activations
        .into_iter()
        .filter(|a| a.get("deviceId").and_then(|v| v.as_str()) != Some(to_remove))
        .collect();
    assert_eq!(remaining.len(), 2);
    assert!(
        remaining
            .iter()
            .all(|a| { a.get("deviceId").and_then(|v| v.as_str()) != Some(to_remove) })
    );
}

#[test]
fn test_validate_redirect_token_state_used_token() {
    let token_doc = json(r#"{
        "used": true,
        "expiresAt": "2099-01-01T00:00:00Z"
    }"#);
    let result = validate_redirect_token_state(&token_doc);
    assert!(result.is_err());
}

#[test]
fn test_validate_redirect_token_state_expired() {
    let token_doc = json(r#"{
        "used": false,
        "expiresAt": "2020-01-01T00:00:00Z"
    }"#);
    let result = validate_redirect_token_state(&token_doc);
    assert!(result.is_err());
}

#[test]
fn test_validate_redirect_token_state_valid() {
    let token_doc = json(r#"{
        "used": false,
        "expiresAt": "2099-01-01T00:00:00Z"
    }"#);
    let result = validate_redirect_token_state(&token_doc);
    assert!(result.is_ok());
}

#[test]
fn test_validate_redirect_token_state_missing_expiry() {
    let token_doc = json(r#"{
        "used": false
    }"#);
    let result = validate_redirect_token_state(&token_doc);
    assert!(result.is_err());
}

#[test]
fn test_validate_redirect_token_state_invalid_expiry_format() {
    let token_doc = json(r#"{
        "used": false,
        "expiresAt": "not-a-date"
    }"#);
    let result = validate_redirect_token_state(&token_doc);
    assert!(result.is_err());
}

#[test]
fn test_download_token_expiry_calculation() {
    let now = chrono::Utc::now();
    let expires_at =
        now + chrono::Duration::minutes(rules::DOWNLOAD_TOKEN_MINUTES as i64);
    let diff = expires_at.signed_duration_since(now).num_minutes();
    assert_eq!(diff, 15);
}

#[test]
fn activation_requests_are_checked() {
    let req = |key: &str, device: &str| ActivateLicenseRequest {
        license_key: key.into(),
        device_id: device.into(),
        user_id: "u1".into(),
        platform: None,
    };
    assert_eq!(
        check_activation_request(&req("bad", "")),
        Err(Error::Validation("Invalid license key format".into()))
    );
    assert_eq!(
        check_activation_request(&req(KEY, " \t")),
        Err(Error::Validation("deviceId is required".into()))
    );
    assert_eq!(
        check_activation_request(&req(" abcd-1234-efgh-5678 ", " dev ")),
        Ok((KEY.to_string(), "dev".to_string()))
    );
}

#[test]
fn licenses_are_checked_before_activation() {
    let activate = |doc: &serde_json::Value, user: &str| {
        activate_license(doc, KEY.into(), "d1", user, None, NOW).map(|_| ())
    };
    assert_eq!(
        activate(&serde_json::Value::Null, "u1"),
        Err(Error::NotFound("License not found".into()))
    );
    for doc in ["{}", r#"{"status": "revoked", "userId": "u1"}"#] {
        assert_eq!(
            activate(&json(doc), "u1"),
            Err(Error::Forbidden("License has been revoked".into()))
        );
    }
    assert_eq!(
        activate(&license("[]", ""), "u2"),
        Err(Error::Forbidden("You do not own this license".into()))
    );
    assert_eq!(activate(&license("[]", ""), "u1"), Ok(()));
}

#[test]
fn new_device_is_added_up_to_the_limit() {
    let doc = license(r#"[{"deviceId": "a"}]"#, r#", "deviceLimit": 2"#);
    let a = activate_license(&doc, KEY.into(), "b", "u1", Some("macos".into()), NOW).unwrap();
    assert!(a.is_new && a.response.approved);
    assert_eq!(a.response.license_key, KEY);
    assert_eq!(a.response.activated_at, STAMP);
    assert_eq!(a.response.product_name, "Pro");
    assert_eq!(a.updated_at, STAMP);
    assert_eq!(a.activations.len(), 2);
    assert_eq!(
        a.activations[1],
        json(&format!(
            r#"{{"deviceId": "b", "platform": "macos", "activatedAt": "{STAMP}", "lastVerifiedAt": "{STAMP}"}}"#
        ))
    );
    let full = license(r#"[{"deviceId": "a"}, {"deviceId": "b"}]"#, r#", "deviceLimit": 2"#);
    assert_eq!(
        activate_license(&full, KEY.into(), "c", "u1", None, NOW).err(),
        Some(Error::Forbidden("Device activation limit reached".into()))
    );
    let again = activate_license(&full, KEY.into(), "b", "u1", None, NOW).unwrap();
    assert!(!again.is_new);
    assert_eq!(again.activations.len(), 2);
}

#[test]
fn default_device_limit() {
    let devices: Vec<String> = (0..rules::MAX_DEVICES_PER_LICENSE)
        .map(|i| format!(r#"{{"deviceId": "d{i}"}}"#))
        .collect();
    let doc = license(&format!("[{}]", devices.join(",")), "");
    assert!(activate_license(&doc, KEY.into(), "x", "u1", None, NOW).is_err());
    let doc = license(&format!("[{}]", devices[1..].join(",")), "");
    assert!(activate_license(&doc, KEY.into(), "x", "u1", None, NOW).is_ok());
}

#[test]
fn known_device_is_verified_again() {
    let doc = license(
        r#"[{"deviceId": "a", "activatedAt": "2020-01-01T00:00:00Z", "x": 1}, {"deviceId": "a"}, {"deviceId": "b"}]"#,
        r#", "deviceLimit": 1"#,
    );
    let a = activate_license(&doc, KEY.into(), "a", "u1", None, NOW).unwrap();
    assert_eq!(a.response.activated_at, "2020-01-01T00:00:00Z");
    assert_eq!(a.activations[0]["lastVerifiedAt"], STAMP);
    assert_eq!(a.activations[0]["x"], 1);
    assert_eq!(a.activations[1], json(r#"{"deviceId": "a"}"#));
    assert_eq!(a.activations[2], json(r#"{"deviceId": "b"}"#));
    let b = activate_license(&doc, KEY.into(), "b", "u1", None, NOW).unwrap();
    assert_eq!(b.response.activated_at, STAMP);
}

#[test]
fn deactivation_requests_are_checked() {
    let req = |key: &str, device: &str| DeactivateLicenseRequest {
        license_key: key.into(),
        device_id: device.into(),
        user_id: "u1".into(),
    };
    assert_eq!(
        check_deactivation_request(&req("bad", "")),
        Err(Error::Validation("Invalid license key format".into()))
    );
    assert_eq!(
        check_deactivation_request(&req(KEY, "")),
        Err(Error::Validation("deviceId is required".into()))
    );
    assert_eq!(check_deactivation_request(&req(KEY, " ")), Ok(KEY.to_string()));
}

#[test]
fn deactivation_removes_the_device_and_makes_room() {
    let doc = license(
        r#"[{"deviceId": "a"}, {"deviceId": "b"}, {"other": 1}, {"deviceId": "a"}]"#,
        r#", "deviceLimit": 4"#,
    );
    let d = deactivate_license(&doc, "a", "u1", NOW).unwrap();
    assert!(d.response.deactivated);
    assert_eq!(d.response.remaining_activations, 2);
    assert_eq!(d.activations, vec![json(r#"{"deviceId": "b"}"#), json(r#"{"other": 1}"#)]);
    assert_eq!(d.updated_at, STAMP);
    let mut after = doc.clone();
    after["activations"] = serde_json::Value::Array(d.activations);
    assert!(activate_license(&after, KEY.into(), "c", "u1", None, NOW).is_ok());
    assert!(activate_license(&doc, KEY.into(), "c", "u1", None, NOW).is_err());
    assert_eq!(
        deactivate_license(&doc, "a", "u2", NOW).err(),
        Some(Error::Forbidden("Not your license".into()))
    );
    assert_eq!(
        deactivate_license(&serde_json::Value::Null, "a", "u1", NOW).err(),
        Some(Error::NotFound("License not found".into()))
    );
}

#[test]
fn verification_reports_and_refreshes() {
    let doc = license(r#"[{"deviceId": "a"}, {"deviceId": "b"}, {"deviceId": "a"}]"#, "");
    let v = verify_license(&doc, KEY.into(), Some("a"), NOW).unwrap();
    assert!(v.response.valid);
    assert_eq!(v.response.status, "active");
    assert_eq!(v.response.product_name, "Pro");
    let list = v.activations.unwrap();
    assert_eq!(list[0]["lastVerifiedAt"], STAMP);
    assert_eq!(list[1], json(r#"{"deviceId": "b"}"#));
    assert_eq!(list[2]["lastVerifiedAt"], STAMP);
    assert!(verify_license(&doc, KEY.into(), Some("z"), NOW).unwrap().activations.is_none());
    assert!(verify_license(&doc, KEY.into(), None, NOW).unwrap().activations.is_none());
    let v = verify_license(&json("{}"), KEY.into(), None, NOW).unwrap();
    assert!(!v.response.valid);
    assert_eq!(v.response.status, "unknown");
    assert_eq!(
        verify_license(&serde_json::Value::Null, KEY.into(), None, NOW).err(),
        Some(Error::NotFound("License not found".into()))
    );
    assert_eq!(
        check_license_key("nope"),
        Err(Error::Validation("Invalid license key format".into()))
    );
}

fn download(key: Option<&str>) -> DownloadRequest {
    DownloadRequest {
        product_id: "p1".into(),
        user_id: "u1".into(),
        license_key: key.map(|s| s.to_string()),
    }
}

#[test]
fn download_requests_are_checked() {
    for key in [None, Some("")] {
        assert_eq!(
            check_download_request(&download(key)),
            Err(Error::Validation("licenseKey is required".into()))
        );
    }
    assert_eq!(
        check_download_request(&download(Some(" "))),
        Err(Error::Validation("Invalid license key format".into()))
    );
    assert_eq!(
        check_download_request(&download(Some("abcd-1234-efgh-5678"))),
        Ok(KEY.to_string())
    );
}

#[test]
fn entitlement_to_a_download() {
    let check = |doc: &str, kind| check_entitlement(&json(doc), "u1", kind);
    let book = r#"{"userId": "u1", "status": "active", "digitalType": "book"}"#;
    assert_eq!(
        check("null", DigitalKind::Book),
        Err(Error::NotFound("License not found".into()))
    );
    assert_eq!(
        check(r#"{"userId": "u2"}"#, DigitalKind::Book),
        Err(Error::Forbidden("Not your license".into()))
    );
    assert_eq!(
        check(r#"{"userId": "u1", "status": "expired"}"#, DigitalKind::Book),
        Err(Error::Forbidden("License revoked".into()))
    );
    assert_eq!(
        check(book, DigitalKind::Software),
        Err(Error::Validation("Not a software license".into()))
    );
    assert_eq!(
        check(&book.replace("book", "software"), DigitalKind::Book),
        Err(Error::Validation("Not a book license".into()))
    );
    assert_eq!(check(book, DigitalKind::Book), Ok(()));
    assert_eq!(check(&book.replace("book", "software"), DigitalKind::Software), Ok(()));
}

#[test]
fn download_tokens() {
    let mut random = [0u8; 16];
    random[1] = 0x5e;
    let doc = json(r#"{"bookSourceUrl": "https://x/b", "downloadUrl": "https://x/d"}"#);
    let req = download(Some(KEY));
    let (t, link) = download_token(&doc, KEY.into(), &req, DigitalKind::Book, random, NOW);
    assert_eq!(t.access_token, "tok_005e0000000000000000000000000000");
    assert_eq!(link.download_url, format!("/dl?t={}", t.access_token));
    assert_eq!(t.source_url, "https://x/b");
    assert_eq!(t.expires_at, "2026-03-10T12:15:00+00:00");
    assert_eq!(t.created_at, STAMP);
    assert!(!t.used);
    assert_eq!((t.user_id.as_str(), t.product_id.as_str()), ("u1", "p1"));
    let (t, link) = download_token(&doc, KEY.into(), &req, DigitalKind::Software, random, NOW);
    assert_eq!(t.source_url, "https://x/d");
    assert!(link.download_url.starts_with("/sdl?t=tok_"));
    let (t, _) = download_token(&json("{}"), KEY.into(), &req, DigitalKind::Software, random, NOW);
    assert_eq!(t.source_url, "");
    let odd = json(r#"{"softwareSourceUrl": null, "downloadUrl": "x"}"#);
    let (t, _) = download_token(&odd, KEY.into(), &req, DigitalKind::Software, random, NOW);
    assert!(t.source_url.is_null());
    let (a, _) = fresh_download_token(&doc, KEY.into(), &req, DigitalKind::Book, NOW);
    let (b, _) = fresh_download_token(&doc, KEY.into(), &req, DigitalKind::Book, NOW);
    assert_eq!(a.access_token.len(), 36);
    assert_ne!(a.access_token, b.access_token);
}

#[test]
fn token_works_once_and_for_its_time() {
    let fresh = json(r#"{"expiresAt": "2026-03-10T12:15:00+00:00"}"#);
    assert_eq!(token_state_at(&fresh, NOW), Ok(()));
    let end = Timestamp { secs: NOW.secs + 900, nanos: 0 };
    assert_eq!(token_state_at(&fresh, end), Ok(()));
    let late = Timestamp { secs: NOW.secs + 900, nanos: 1 };
    assert_eq!(
        token_state_at(&fresh, late),
        Err(Error::Forbidden("Download token expired".into()))
    );
    assert_eq!(
        token_state_at(&json(r#"{"used": true}"#), NOW),
        Err(Error::Forbidden("Download token already used".into()))
    );
    assert_eq!(
        token_state_at(&json(r#"{"expiresAt": 5}"#), NOW),
        Err(Error::Validation("Token missing expiration".into()))
    );
    assert_eq!(
        token_state_at(&json(r#"{"expiresAt": "x"}"#), NOW),
        Err(Error::Validation("Token expiration is invalid".into()))
    );
}

#[test]
fn token_texts_and_targets() {
    assert_eq!(
        validate_string_token("t", " "),
        Err(Error::Validation("t is invalid".into()))
    );
    assert!(validate_string_token("t", &"x".repeat(255)).is_ok());
    assert!(validate_string_token("t", &"é".repeat(128)).is_err());
    let doc = json(r#"{"bookSourceUrl": "b", "softwareSourceUrl": "s", "downloadUrl": "d"}"#);
    assert_eq!(redirect_target(&doc, DigitalKind::Book), Ok("b".to_string()));
    assert_eq!(redirect_target(&doc, DigitalKind::Software), Ok("s".to_string()));
    let doc = json(r#"{"downloadUrl": "d"}"#);
    assert_eq!(redirect_target(&doc, DigitalKind::Software), Ok("d".to_string()));
    assert_eq!(
        redirect_target(&doc, DigitalKind::Book),
        Err(Error::NotFound("Download URL not found".into()))
    );
    let doc = json(r#"{"softwareSourceUrl": 1, "downloadUrl": "d"}"#);
    assert!(redirect_target(&doc, DigitalKind::Software).is_err());
    assert_eq!(token_key(&json(r#"{"id": "tokens:a:b"}"#), "tokens").as_deref(), Some("a:b"));
    assert_eq!(token_key(&json(r#"{"id": "other:a"}"#), "tokens").as_deref(), Some("other:a"));
    assert_eq!(token_key(&json("{}"), "tokens"), None);
}

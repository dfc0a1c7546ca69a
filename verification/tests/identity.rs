use ob_handlers::admin::get_retention_config;
use ob_handlers::auth::AuthContext;
use ob_handlers::error::Error;
use ob_handlers::identity::enforce_actor_identity;

fn user(id: &str) -> AuthContext {
    AuthContext { authenticated: true, user_id: id.into(), roles: vec!["buyer".into()] }
}

fn admin(id: &str) -> AuthContext {
    AuthContext { authenticated: true, user_id: id.into(), roles: vec!["admin".into()] }
}

fn check(auth: &AuthContext, body: &str) -> Result<(), Error> {
    enforce_actor_identity(auth, "application/json; charset=utf-8", body.as_bytes())
}

#[test]
fn users_act_for_themselves_only() {
    for key in ["userId", "sellerId"] {
        let body = format!(r#"{{"{key}": "u1"}}"#);
        assert_eq!(check(&user("u1"), &body), Ok(()));
        assert_eq!(check(&admin("a1"), &body), Ok(()));
        assert_eq!(
            check(&user("u2"), &body),
            Err(Error::Forbidden("Cannot act on another user".into()))
        );
        assert_eq!(
            check(&AuthContext::anonymous(), &body),
            Err(Error::Auth("Authentication required".into()))
        );
    }
}

#[test]
fn administrators_name_themselves() {
    for key in ["adminId", "adminUserId"] {
        let body = format!(r#"{{"{key}": "a1"}}"#);
        assert_eq!(check(&admin("a1"), &body), Ok(()));
        assert_eq!(
            check(&admin("a2"), &body),
            Err(Error::Forbidden("Admin identity mismatch".into()))
        );
        assert_eq!(
            check(&user("a1"), &body),
            Err(Error::Forbidden("Admin access required".into()))
        );
        assert_eq!(
            check(&AuthContext::anonymous(), &body),
            Err(Error::Auth("Authentication required".into()))
        );
    }
}

#[test]
fn users_are_checked_before_administrators() {
    let body = r#"{"adminId": "x", "userId": "y"}"#;
    assert_eq!(
        check(&user("u1"), body),
        Err(Error::Forbidden("Cannot act on another user".into()))
    );
    let body = r#"{"userId": "u1", "sellerId": "y"}"#;
    assert_eq!(
        check(&user("u1"), body),
        Err(Error::Forbidden("Cannot act on another user".into()))
    );
}

#[test]
fn bodies_that_name_nobody_pass() {
    let anyone = AuthContext::anonymous();
    for body in ["", "not json", "[]", "{}", r#"{"userId": ""}"#, r#"{"userId": 5}"#, "null"] {
        assert_eq!(check(&anyone, body), Ok(()), "{body}");
    }
    let body = br#"{"userId": "u1"}"#;
    assert_eq!(enforce_actor_identity(&anyone, "text/plain", body), Ok(()));
    assert_eq!(enforce_actor_identity(&anyone, "", body), Ok(()));
    assert!(enforce_actor_identity(&anyone, "application/json", body).is_err());
}

#[test]
fn retention_periods() {
    let c = get_retention_config();
    assert_eq!(c.webhook_event_retention_days, 90);
    assert_eq!(c.email_log_retention_days, 30);
    assert_eq!(c.audit_log_retention_days, 365);
}

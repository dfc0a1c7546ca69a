//! Whom a request may act for: the identities that its body names must be the
//! caller's own, unless an administrator asks.
use vstd::prelude::*;

use crate::auth::AuthContext;
use crate::error::{auth_error, forbidden, Error, Fault};
use crate::json;
use crate::json::{json_of, Json};
use crate::text;

verus! {

/// The document that some bytes are the JSON text of.
pub uninterp spec fn json_parsed(bytes: Seq<u8>) -> Option<Json>;

/// `serde_json::from_slice` into a `serde_json::Value`: the document that the
/// bytes are the JSON text of, a function of the bytes alone, and nothing
/// where they are none.
#[verifier::external_body]
fn parse_json(bytes: &[u8]) -> (r: Option<serde_json::Value>)
    ensures
        match r {
            Some(v) => json_parsed(bytes@) == Some(json_of(v)),
            None => json_parsed(bytes@) is None,
        },
{
    serde_json::from_slice(bytes).ok()
}

/// Why a request is refused for the user that it names at `key`.
pub open spec fn actor_refusal(auth: AuthContext, payload: Json, key: Seq<char>) -> Option<Fault> {
    let actor = json::text_or_empty(payload, key);
    if actor.len() == 0 {
        None
    } else if !auth.authenticated {
        Some(Fault::Auth("Authentication required"@))
    } else if auth.user_id@ != actor && !auth.holds("admin"@) {
        Some(Fault::Forbidden("Cannot act on another user"@))
    } else {
        None
    }
}

/// Why a request is refused for the administrator that it names at `key`.
pub open spec fn admin_refusal(auth: AuthContext, payload: Json, key: Seq<char>) -> Option<Fault> {
    let admin = json::text_or_empty(payload, key);
    if admin.len() == 0 {
        None
    } else if !auth.authenticated {
        Some(Fault::Auth("Authentication required"@))
    } else if !auth.holds("admin"@) {
        Some(Fault::Forbidden("Admin access required"@))
    } else if auth.user_id@ != admin {
        Some(Fault::Forbidden("Admin identity mismatch"@))
    } else {
        None
    }
}

/// The first of two refusals.
pub open spec fn first_refusal(a: Option<Fault>, b: Option<Fault>) -> Option<Fault> {
    match a {
        Some(f) => Some(f),
        None => b,
    }
}

/// Why a request is refused for the identities that its body names.
pub open spec fn identity_refusal(auth: AuthContext, payload: Json) -> Option<Fault> {
    first_refusal(
        first_refusal(
            actor_refusal(auth, payload, "userId"@),
            actor_refusal(auth, payload, "sellerId"@),
        ),
        first_refusal(
            admin_refusal(auth, payload, "adminId"@),
            admin_refusal(auth, payload, "adminUserId"@),
        ),
    )
}

/// Why a request is refused: only a JSON body names anyone, and one that
/// cannot be read names nobody.
pub open spec fn request_refusal(
    auth: AuthContext,
    content_type: Seq<char>,
    body: Seq<u8>,
) -> Option<Fault> {
    if !text::occurs_at(content_type, "application/json"@, 0) || body.len() == 0 {
        None
    } else {
        match json_parsed(body) {
            Some(payload) => identity_refusal(auth, payload),
            None => None,
        }
    }
}

fn check_actor(auth: &AuthContext, payload: &serde_json::Value, key: &str) -> (r: Result<(), Error>)
    ensures
        match r {
            Ok(()) => actor_refusal(*auth, json_of(*payload), key@) is None,
            Err(e) => actor_refusal(*auth, json_of(*payload), key@) == Some(e@),
        },
{
    let actor = json::text_field_or_empty(payload, key);
    if actor.is_empty() {
        return Ok(());
    }
    if !auth.authenticated {
        return Err(auth_error("Authentication required"));
    }
    if !text::same(auth.user_id.as_str(), actor) && !auth.has_role("admin") {
        return Err(forbidden("Cannot act on another user"));
    }
    Ok(())
}

fn check_admin(auth: &AuthContext, payload: &serde_json::Value, key: &str) -> (r: Result<(), Error>)
    ensures
        match r {
            Ok(()) => admin_refusal(*auth, json_of(*payload), key@) is None,
            Err(e) => admin_refusal(*auth, json_of(*payload), key@) == Some(e@),
        },
{
    let admin = json::text_field_or_empty(payload, key);
    if admin.is_empty() {
        return Ok(());
    }
    if !auth.authenticated {
        return Err(auth_error("Authentication required"));
    }
    if !auth.has_role("admin") {
        return Err(forbidden("Admin access required"));
    }
    if !text::same(auth.user_id.as_str(), admin) {
        return Err(forbidden("Admin identity mismatch"));
    }
    Ok(())
}

/// Checks the identities that a JSON document names.
pub fn check_identities(auth: &AuthContext, payload: &serde_json::Value) -> (r: Result<(), Error>)
    ensures
        match r {
            Ok(()) => identity_refusal(*auth, json_of(*payload)) is None,
            Err(e) => identity_refusal(*auth, json_of(*payload)) == Some(e@),
        },
{
    if let Err(e) = check_actor(auth, payload, "userId") {
        return Err(e);
    }
    if let Err(e) = check_actor(auth, payload, "sellerId") {
        return Err(e);
    }
    if let Err(e) = check_admin(auth, payload, "adminId") {
        return Err(e);
    }
    check_admin(auth, payload, "adminUserId")
}

/// Whether a body of this content type may name an identity.
pub fn is_json(content_type: &str) -> (r: bool)
    ensures
        r == text::occurs_at(content_type@, "application/json"@, 0),
{
    text::starts_with(content_type, "application/json")
}

/// Checks the identities that the body of a request names.
pub fn enforce_actor_identity(auth: &AuthContext, content_type: &str, body: &[u8]) -> (r: Result<
    (),
    Error,
>)
    ensures
        match r {
            Ok(()) => request_refusal(*auth, content_type@, body@) is None,
            Err(e) => request_refusal(*auth, content_type@, body@) == Some(e@),
        },
{
    if !is_json(content_type) || body.len() == 0 {
        return Ok(());
    }
    match parse_json(body) {
        Some(payload) => check_identities(auth, &payload),
        None => Ok(()),
    }
}

/// A request that passes acts for nobody but its caller, unless an
/// administrator asks; and what it names as the administrator is its caller.
pub proof fn law_no_impersonation(auth: AuthContext, payload: Json)
    requires
        identity_refusal(auth, payload) is None,
    ensures
        forall|key: Seq<char>|
            (key == "userId"@ || key == "sellerId"@) && #[trigger] json::text_or_empty(
                payload,
                key,
            ).len() > 0 ==> auth.authenticated && (json::text_or_empty(payload, key)
                == auth.user_id@ || auth.holds("admin"@)),
        forall|key: Seq<char>|
            (key == "adminId"@ || key == "adminUserId"@) && #[trigger] json::text_or_empty(
                payload,
                key,
            ).len() > 0 ==> auth.authenticated && auth.holds("admin"@) && json::text_or_empty(
                payload,
                key,
            ) == auth.user_id@,
{
}

/// A caller who is not signed in cannot name anyone.
pub proof fn law_anonymous_names_nobody(auth: AuthContext, payload: Json, key: Seq<char>)
    requires
        !auth.authenticated,
        key == "userId"@ || key == "sellerId"@ || key == "adminId"@ || key == "adminUserId"@,
        json::text_or_empty(payload, key).len() > 0,
    ensures
        identity_refusal(auth, payload) == Some(Fault::Auth("Authentication required"@)),
{
}

/// A request that names nobody passes, whoever makes it.
pub proof fn law_naming_nobody_passes(auth: AuthContext, payload: Json)
    requires
        json::text_or_empty(payload, "userId"@).len() == 0,
        json::text_or_empty(payload, "sellerId"@).len() == 0,
        json::text_or_empty(payload, "adminId"@).len() == 0,
        json::text_or_empty(payload, "adminUserId"@).len() == 0,
    ensures
        identity_refusal(auth, payload) is None,
{
}

/// A request passes exactly where nobody is named, or those named may be: a
/// user or seller who is the signed-in caller or is named by an administrator,
/// and as an administrator only the caller, who must be one.
pub proof fn law_request_passes(auth: AuthContext, payload: Json)
    ensures
        identity_refusal(auth, payload) is None <==> {
            let user = json::text_or_empty(payload, "userId"@);
            let seller = json::text_or_empty(payload, "sellerId"@);
            let admin = json::text_or_empty(payload, "adminId"@);
            let admin_user = json::text_or_empty(payload, "adminUserId"@);
            let is_admin = exists|i: int|
                0 <= i < auth.roles@.len() && (#[trigger] auth.roles@[i])@ == "admin"@;
            &&& user.len() > 0 ==> auth.authenticated && (user == auth.user_id@ || is_admin)
            &&& seller.len() > 0 ==> auth.authenticated && (seller == auth.user_id@ || is_admin)
            &&& admin.len() > 0 ==> auth.authenticated && is_admin && admin == auth.user_id@
            &&& admin_user.len() > 0 ==> auth.authenticated && is_admin && admin_user
                == auth.user_id@
        },
{
}

/// Every JSON body that can be read is checked; no other body is.
pub proof fn law_json_bodies_are_checked(
    auth: AuthContext,
    content_type: Seq<char>,
    body: Seq<u8>,
)
    ensures
        text::occurs_at(content_type, "application/json"@, 0) && body.len() > 0 && json_parsed(body)
            is Some ==> request_refusal(auth, content_type, body) == identity_refusal(
            auth,
            json_parsed(body)->0,
        ),
        !text::occurs_at(content_type, "application/json"@, 0) || json_parsed(body) is None
            || body.len() == 0 ==> request_refusal(auth, content_type, body) is None,
{
}

} // verus!

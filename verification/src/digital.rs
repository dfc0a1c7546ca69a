//! Digital goods: licenses, the devices that they are active on, and download
//! links.
use vstd::prelude::*;
use vstd::utf8::*;

use crate::coupons::{code_chars, is_code_char, normalize_code, stored_code};
use crate::error::{forbidden, not_found, validation, Error, Fault};
use crate::fields;
use crate::ids;
use crate::json;
use crate::json::{json_of, jsons, Json};
use crate::rules;
use crate::text;
use crate::time;
use crate::time::{parse_instant, stored_instant, Timestamp};

verus! {

// ------------------------------------------------------- requests and answers

#[derive(Debug)]
pub struct ActivateLicenseRequest {
    pub license_key: String,
    pub device_id: String,
    pub user_id: String,
    pub platform: Option<String>,
}

#[derive(Debug)]
pub struct ActivateLicenseResponse {
    pub approved: bool,
    pub license_key: String,
    pub activated_at: String,
    pub product_name: String,
}

#[derive(Debug)]
pub struct DeactivateLicenseRequest {
    pub license_key: String,
    pub device_id: String,
    pub user_id: String,
}

#[derive(Debug)]
pub struct DeactivateLicenseResponse {
    pub deactivated: bool,
    pub remaining_activations: usize,
}

#[derive(Debug)]
pub struct DownloadRequest {
    pub product_id: String,
    pub user_id: String,
    pub license_key: Option<String>,
}

#[derive(Debug)]
pub struct DownloadResponse {
    pub download_url: String,
}

#[derive(Debug)]
pub struct VerifyLicenseRequest {
    pub license_key: String,
    pub device_id: Option<String>,
    pub platform: Option<String>,
}

#[derive(Debug)]
pub struct VerifyLicenseResponse {
    pub valid: bool,
    pub license_key: String,
    pub product_name: String,
    pub status: String,
}

#[derive(Debug)]
pub struct RedirectTokenQuery {
    pub t: String,
}

// ------------------------------------------------------------------------ keys

/// A license key: four groups of four ASCII capital letters and digits, with
/// hyphens between them.
pub open spec fn is_license_key(s: Seq<char>) -> bool {
    &&& s.len() == 19
    &&& s[4] == '-' && s[9] == '-' && s[14] == '-'
    &&& forall|i: int| 0 <= i < 4 ==> is_code_char(#[trigger] s[i])
    &&& forall|i: int| 5 <= i < 9 ==> is_code_char(#[trigger] s[i])
    &&& forall|i: int| 10 <= i < 14 ==> is_code_char(#[trigger] s[i])
    &&& forall|i: int| 15 <= i < 19 ==> is_code_char(#[trigger] s[i])
}

/// Whether a text is a license key.
pub fn is_valid_license_key(key: &str) -> (r: bool)
    ensures
        r == is_license_key(key@),
{
    let v = text::chars_of(key);
    v.len() == 19 && v[4] == '-' && v[9] == '-' && v[14] == '-' && code_chars(&v, 0, 4)
        && code_chars(&v, 5, 9) && code_chars(&v, 10, 14) && code_chars(&v, 15, 19)
}

/// Checks a key as it was given, and gives it as it is stored.
pub fn check_license_key(raw: &str) -> (r: Result<String, Error>)
    ensures
        match r {
            Ok(key) => is_license_key(stored_code(raw@)) && key@ == stored_code(raw@),
            Err(e) => !is_license_key(stored_code(raw@)) && e@ == Fault::Validation(
                "Invalid license key format"@,
            ),
        },
{
    let key = normalize_code(raw);
    if !is_valid_license_key(key.as_str()) {
        return Err(validation("Invalid license key format"));
    }
    Ok(key)
}

// --------------------------------------------------------------------- devices

/// The activations of a license.
pub open spec fn activations_of(license: Json) -> Seq<Json> {
    json::items_at(license, "activations"@)
}

/// The activation is that of the device.
pub open spec fn is_for_device(activation: Json, device: Seq<char>) -> bool {
    json::text_at(activation, fields::DEVICE_ID@) == Some(device)
}

/// The device is among the activations.
pub open spec fn is_active_on(activations: Seq<Json>, device: Seq<char>) -> bool {
    exists|i: int| 0 <= i < activations.len() && is_for_device(#[trigger] activations[i], device)
}

/// `i` is the first activation of the device.
pub open spec fn is_first_for(activations: Seq<Json>, device: Seq<char>, i: int) -> bool {
    &&& 0 <= i < activations.len()
    &&& is_for_device(activations[i], device)
    &&& forall|j: int| 0 <= j < i ==> !is_for_device(#[trigger] activations[j], device)
}

/// Whether an activation is that of a device.
fn for_device(activation: &serde_json::Value, device: &str) -> (r: bool)
    ensures
        r == is_for_device(json_of(*activation), device@),
{
    match json::text_field(activation, fields::DEVICE_ID) {
        Some(s) => text::same(s, device),
        None => false,
    }
}

/// The first activation of a device.
fn first_for(activations: &Vec<serde_json::Value>, device: &str) -> (r: Option<usize>)
    ensures
        match r {
            Some(i) => is_first_for(jsons(activations@), device@, i as int),
            None => !is_active_on(jsons(activations@), device@),
        },
{
    let mut i: usize = 0;
    while i < activations.len()
        invariant
            i <= activations@.len(),
            forall|j: int|
                0 <= j < i ==> !is_for_device(#[trigger] jsons(activations@)[j], device@),
        decreases activations@.len() - i,
    {
        if for_device(&activations[i], device) {
            return Some(i);
        }
        i = i + 1;
    }
    None
}

/// The activation, verified at `stamp`.
pub open spec fn verified_at(activation: Json, stamp: Seq<char>) -> Json {
    json::with_text(activation, "lastVerifiedAt"@, stamp)
}

/// The activation of a new device.
pub open spec fn new_activation(device: Seq<char>, platform: Seq<char>, stamp: Seq<char>) -> Json {
    Json::Object(
        Map::empty().insert(fields::DEVICE_ID@, Json::Str(device)).insert(
            "platform"@,
            Json::Str(platform),
        ).insert("activatedAt"@, Json::Str(stamp)).insert("lastVerifiedAt"@, Json::Str(stamp)),
    )
}

/// The most devices that a license may be active on.
pub open spec fn device_limit(license: Json) -> u64 {
    json::nat_at_or(license, "deviceLimit"@, rules::MAX_DEVICES_PER_LICENSE)
}

// ------------------------------------------------------------------ activation

/// Why a request to activate a license is refused on its own.
pub open spec fn activation_refusal(req: ActivateLicenseRequest) -> Option<Fault> {
    if !is_license_key(stored_code(req.license_key@)) {
        Some(Fault::Validation("Invalid license key format"@))
    } else if text::is_blank(req.device_id@) {
        Some(Fault::Validation("deviceId is required"@))
    } else {
        None
    }
}

/// Checks a request to activate a license, and gives the key to look up and
/// the device.
pub fn check_activation_request(req: &ActivateLicenseRequest) -> (r: Result<
    (String, String),
    Error,
>)
    ensures
        match r {
            Ok((key, device)) => {
                &&& activation_refusal(*req) is None
                &&& key@ == stored_code(req.license_key@)
                &&& device@ == text::trimmed(req.device_id@)
            },
            Err(e) => activation_refusal(*req) == Some(e@),
        },
{
    let key = match check_license_key(req.license_key.as_str()) {
        Ok(k) => k,
        Err(e) => return Err(e),
    };
    let device = text::trim(req.device_id.as_str());
    if text::blank(req.device_id.as_str()) {
        return Err(validation("deviceId is required"));
    }
    Ok((key, device.to_owned()))
}

/// Why a license, `null` where there is none, is not activated for a user.
pub open spec fn license_refusal(license: Json, user_id: Seq<char>) -> Option<Fault> {
    if license is Null {
        Some(Fault::NotFound("License not found"@))
    } else if json::text_at(license, fields::STATUS@) != Some("active"@) {
        Some(Fault::Forbidden("License has been revoked"@))
    } else if json::text_or_empty(license, fields::USER_ID@) != user_id {
        Some(Fault::Forbidden("You do not own this license"@))
    } else {
        None
    }
}

/// What activating a license comes to.
pub struct Activation {
    pub response: ActivateLicenseResponse,
    /// The activations to store.
    pub activations: Vec<serde_json::Value>,
    pub updated_at: String,
    /// Whether the device was not active before.
    pub is_new: bool,
}

/// What is stored and answered when a license is activated at `stamp` on a
/// device: one that is active already is verified again, another is added.
pub open spec fn activates(
    a: Activation,
    license: Json,
    key: Seq<char>,
    device: Seq<char>,
    platform: Seq<char>,
    stamp: Seq<char>,
) -> bool {
    let before = activations_of(license);
    &&& a.response.approved
    &&& a.response.license_key@ == key
    &&& a.response.product_name@ == json::text_or_empty(license, "productName"@)
    &&& a.updated_at@ == stamp
    &&& a.is_new == !is_active_on(before, device)
    &&& !a.is_new ==> exists|i: int| #[trigger]
        is_first_for(before, device, i) && jsons(a.activations@) == before.update(
            i,
            verified_at(before[i], stamp),
        ) && a.response.activated_at@ == json::text_at_or(before[i], "activatedAt"@, stamp)
    &&& a.is_new ==> jsons(a.activations@) == before.push(new_activation(device, platform, stamp))
        && a.response.activated_at@ == stamp
}

/// Why a license is not activated on a device at all.
pub open spec fn device_refusal(license: Json, device: Seq<char>) -> Option<Fault> {
    let before = activations_of(license);
    if !is_active_on(before, device) && before.len() >= device_limit(license) {
        Some(Fault::Forbidden("Device activation limit reached"@))
    } else {
        None
    }
}

/// The platform of a request.
pub open spec fn platform_of(platform: Option<String>) -> Seq<char> {
    match platform {
        Some(s) => s@,
        None => Seq::empty(),
    }
}

/// Checks that a license, `null` where there is none, can be activated for a
/// user.
pub fn check_license(license: &serde_json::Value, user_id: &str) -> (r: Result<(), Error>)
    ensures
        match r {
            Ok(()) => license_refusal(json_of(*license), user_id@) is None,
            Err(e) => license_refusal(json_of(*license), user_id@) == Some(e@),
        },
{
    if json::is_null(license) {
        return Err(not_found("License not found"));
    }
    let active = match json::text_field(license, fields::STATUS) {
        Some(s) => text::same(s, "active"),
        None => false,
    };
    if !active {
        return Err(forbidden("License has been revoked"));
    }
    if !text::same(json::text_field_or_empty(license, fields::USER_ID), user_id) {
        return Err(forbidden("You do not own this license"));
    }
    Ok(())
}

/// Activates a license, `null` where there is none, on a device of a user.
pub fn activate_license(
    license: &serde_json::Value,
    key: String,
    device: &str,
    user_id: &str,
    platform: Option<String>,
    now: Timestamp,
) -> (r: Result<Activation, Error>)
    requires
        now.of_clock(),
    ensures
        match r {
            Ok(a) => {
                &&& license_refusal(json_of(*license), user_id@) is None
                &&& device_refusal(json_of(*license), device@) is None
                &&& activates(
                    a,
                    json_of(*license),
                    key@,
                    device@,
                    platform_of(platform),
                    time::rfc3339_text(now),
                )
            },
            Err(e) => match license_refusal(json_of(*license), user_id@) {
                Some(f) => e@ == f,
                None => device_refusal(json_of(*license), device@) == Some(e@),
            },
        },
{
    if let Err(e) = check_license(license, user_id) {
        return Err(e);
    }
    let stamp = time::to_rfc3339(now);
    let mut activations = json::list_copy(license, "activations");
    let ghost before = activations_of(json_of(*license));
    let product_name = json::text_field_or_empty(license, "productName").to_owned();
    if let Some(i) = first_for(&activations, device) {
        let activated_at = json::text_field_or(
            &activations[i],
            "activatedAt",
            stamp.as_str(),
        ).to_owned();
        let mut fresh = json::copy(&activations[i]);
        json::put_text(&mut fresh, "lastVerifiedAt", stamp.as_str());
        activations.set(i, fresh);
        assert(jsons(activations@) =~= before.update(
            i as int,
            verified_at(before[i as int], stamp@),
        ));
        return Ok(
            Activation {
                response: ActivateLicenseResponse {
                    approved: true,
                    license_key: key,
                    activated_at,
                    product_name,
                },
                activations,
                updated_at: stamp,
                is_new: false,
            },
        );
    }
    let limit: u64 = json::nat_field_or(license, "deviceLimit", rules::MAX_DEVICES_PER_LICENSE);
    assert(jsons(activations@).len() == activations@.len());
    if activations.len() as u64 >= limit {
        return Err(forbidden("Device activation limit reached"));
    }
    let platform_text = match platform {
        Some(s) => s,
        None => String::new(),
    };
    let mut added = json::empty_object();
    json::put_text(&mut added, fields::DEVICE_ID, device);
    json::put_text(&mut added, "platform", platform_text.as_str());
    json::put_text(&mut added, "activatedAt", stamp.as_str());
    json::put_text(&mut added, "lastVerifiedAt", stamp.as_str());
    activations.push(added);
    assert(platform_text@ =~= platform_of(platform));
    assert(jsons(activations@) =~= before.push(
        new_activation(device@, platform_of(platform), stamp@),
    ));
    Ok(
        Activation {
            response: ActivateLicenseResponse {
                approved: true,
                license_key: key,
                activated_at: stamp.clone(),
                product_name,
            },
            activations,
            updated_at: stamp,
            is_new: true,
        },
    )
}

// ---------------------------------------------------------------- deactivation

/// Why a request to deactivate a license is refused on its own.
pub open spec fn deactivation_refusal(req: DeactivateLicenseRequest) -> Option<Fault> {
    if !is_license_key(stored_code(req.license_key@)) {
        Some(Fault::Validation("Invalid license key format"@))
    } else if req.device_id@.len() == 0 {
        Some(Fault::Validation("deviceId is required"@))
    } else {
        None
    }
}

/// Checks a request to deactivate a license, and gives the key to look up.
pub fn check_deactivation_request(req: &DeactivateLicenseRequest) -> (r: Result<String, Error>)
    ensures
        match r {
            Ok(key) => deactivation_refusal(*req) is None && key@ == stored_code(
                req.license_key@,
            ),
            Err(e) => deactivation_refusal(*req) == Some(e@),
        },
{
    let key = match check_license_key(req.license_key.as_str()) {
        Ok(k) => k,
        Err(e) => return Err(e),
    };
    if req.device_id.as_str().is_empty() {
        return Err(validation("deviceId is required"));
    }
    Ok(key)
}

/// Why the owner's rights to a license, `null` where there is none, are not
/// given to a user.
pub open spec fn owner_refusal(license: Json, user_id: Seq<char>) -> Option<Fault> {
    if license is Null {
        Some(Fault::NotFound("License not found"@))
    } else if json::text_or_empty(license, fields::USER_ID@) != user_id {
        Some(Fault::Forbidden("Not your license"@))
    } else {
        None
    }
}

/// Checks that a user owns a license, `null` where there is none.
pub fn check_owner(license: &serde_json::Value, user_id: &str) -> (r: Result<(), Error>)
    ensures
        match r {
            Ok(()) => owner_refusal(json_of(*license), user_id@) is None,
            Err(e) => owner_refusal(json_of(*license), user_id@) == Some(e@),
        },
{
    if json::is_null(license) {
        return Err(not_found("License not found"));
    }
    if !text::same(json::text_field_or_empty(license, fields::USER_ID), user_id) {
        return Err(forbidden("Not your license"));
    }
    Ok(())
}

/// The activations without those of a device.
pub open spec fn without_device(activations: Seq<Json>, device: Seq<char>) -> Seq<Json>
    decreases activations.len(),
{
    if activations.len() == 0 {
        Seq::empty()
    } else {
        let before = without_device(activations.drop_last(), device);
        if is_for_device(activations.last(), device) {
            before
        } else {
            before.push(activations.last())
        }
    }
}

/// What deactivating a license comes to.
pub struct Deactivation {
    pub response: DeactivateLicenseResponse,
    /// The activations to store.
    pub activations: Vec<serde_json::Value>,
    pub updated_at: String,
}

/// What is stored and answered when a license is deactivated at `stamp` on a
/// device.
pub open spec fn deactivates(
    d: Deactivation,
    license: Json,
    device: Seq<char>,
    stamp: Seq<char>,
) -> bool {
    &&& jsons(d.activations@) == without_device(activations_of(license), device)
    &&& d.response.deactivated
    &&& d.response.remaining_activations == d.activations@.len()
    &&& d.updated_at@ == stamp
}

/// Deactivates a license, `null` where there is none, on a device of a user.
pub fn deactivate_license(
    license: &serde_json::Value,
    device: &str,
    user_id: &str,
    now: Timestamp,
) -> (r: Result<Deactivation, Error>)
    requires
        now.of_clock(),
    ensures
        match r {
            Ok(d) => {
                &&& owner_refusal(json_of(*license), user_id@) is None
                &&& deactivates(d, json_of(*license), device@, time::rfc3339_text(now))
            },
            Err(e) => owner_refusal(json_of(*license), user_id@) == Some(e@),
        },
{
    if let Err(e) = check_owner(license, user_id) {
        return Err(e);
    }
    let ghost all = activations_of(json_of(*license));
    let mut out: Vec<serde_json::Value> = Vec::new();
    if let Some(list) = json::list_field(license, "activations") {
        let mut i: usize = 0;
        assert(jsons(out@) =~= without_device(all.take(0), device@));
        while i < list.len()
            invariant
                i <= list@.len(),
                all == jsons(list@),
                jsons(out@) == without_device(all.take(i as int), device@),
            decreases list@.len() - i,
        {
            proof {
                assert(all.take(i + 1).drop_last() =~= all.take(i as int));
                assert(all.take(i + 1).last() == json_of(list@[i as int]));
            }
            let ghost before = jsons(out@);
            if !for_device(&list[i], device) {
                out.push(json::copy(&list[i]));
                assert(jsons(out@) =~= before.push(all[i as int]));
            }
            i = i + 1;
        }
        assert(all.take(i as int) =~= all);
    } else {
        assert(jsons(out@) =~= without_device(all, device@));
    }
    let remaining: usize = out.len();
    Ok(
        Deactivation {
            response: DeactivateLicenseResponse {
                deactivated: true,
                remaining_activations: remaining,
            },
            activations: out,
            updated_at: time::to_rfc3339(now),
        },
    )
}

// ---------------------------------------------------------------- verification

/// All activations of a device, verified at `stamp`.
pub open spec fn all_verified(activations: Seq<Json>, device: Seq<char>, stamp: Seq<char>) -> Seq<
    Json,
> {
    Seq::new(
        activations.len(),
        |i: int|
            if is_for_device(activations[i], device) {
                verified_at(activations[i], stamp)
            } else {
                activations[i]
            },
    )
}

/// What verifying a license comes to.
pub struct Verification {
    pub response: VerifyLicenseResponse,
    /// The activations to store, where the device is among them.
    pub activations: Option<Vec<serde_json::Value>>,
    pub updated_at: String,
}

/// What is stored and answered when a license is verified at `stamp`, on a
/// device where one is named.
pub open spec fn verifies(
    v: Verification,
    license: Json,
    key: Seq<char>,
    device: Option<Seq<char>>,
    stamp: Seq<char>,
) -> bool {
    let status = json::text_at_or(license, fields::STATUS@, "unknown"@);
    &&& v.response.valid == (status == "active"@)
    &&& v.response.license_key@ == key
    &&& v.response.product_name@ == json::text_or_empty(license, "productName"@)
    &&& v.response.status@ == status
    &&& v.updated_at@ == stamp
    &&& match v.activations {
        Some(a) => device matches Some(d) && is_active_on(activations_of(license), d) && jsons(a@)
            == all_verified(activations_of(license), d, stamp),
        None => device matches Some(d) ==> !is_active_on(activations_of(license), d),
    }
}

/// Verifies a license, `null` where there is none.
pub fn verify_license(
    license: &serde_json::Value,
    key: String,
    device: Option<&str>,
    now: Timestamp,
) -> (r: Result<Verification, Error>)
    requires
        now.of_clock(),
    ensures
        match r {
            Ok(v) => !(json_of(*license) is Null) && v.response.license_key == key && verifies(
                v,
                json_of(*license),
                key@,
                match device {
                    Some(d) => Some(d@),
                    None => None,
                },
                time::rfc3339_text(now),
            ),
            Err(e) => json_of(*license) is Null && e@ == Fault::NotFound("License not found"@),
        },
{
    if json::is_null(license) {
        return Err(not_found("License not found"));
    }
    let status = json::text_field_or(license, fields::STATUS, "unknown");
    let response = VerifyLicenseResponse {
        valid: text::same(status, "active"),
        license_key: key,
        product_name: json::text_field_or_empty(license, "productName").to_owned(),
        status: status.to_owned(),
    };
    let stamp = time::to_rfc3339(now);
    let ghost all = activations_of(json_of(*license));
    if let Some(d) = device {
        let mut list = json::list_copy(license, "activations");
        if first_for(&list, d).is_some() {
            let mut i: usize = 0;
            while i < list.len()
                invariant
                    i <= list@.len(),
                    list@.len() == all.len(),
                    forall|j: int|
                        0 <= j < i ==> jsons(list@)[j] == all_verified(all, d@, stamp@)[j],
                    forall|j: int| i <= j < all.len() ==> jsons(list@)[j] == all[j],
                decreases all.len() - i,
            {
                let ghost before = jsons(list@);
                assert(before[i as int] == all[i as int]);
                if for_device(&list[i], d) {
                    let mut fresh = json::copy(&list[i]);
                    json::put_text(&mut fresh, "lastVerifiedAt", stamp.as_str());
                    list.set(i, fresh);
                }
                proof {
                    let target = all_verified(all, d@, stamp@);
                    assert forall|j: int| 0 <= j < i + 1 implies jsons(list@)[j] == target[j] by {
                        if j < i {
                            assert(before[j] == target[j]);
                            assert(jsons(list@)[j] == before[j]);
                        }
                    }
                    assert forall|j: int| i + 1 <= j < all.len() implies jsons(list@)[j]
                        == all[j] by {
                        assert(jsons(list@)[j] == before[j]);
                    }
                }
                i = i + 1;
            }
            assert(jsons(list@) =~= all_verified(all, d@, stamp@));
            return Ok(Verification { response, activations: Some(list), updated_at: stamp });
        }
    }
    Ok(Verification { response, activations: None, updated_at: stamp })
}

// ------------------------------------------------------------------- downloads

/// What is downloaded.
#[derive(Debug, Clone, Copy, PartialEq, Eq)]
pub enum DigitalKind {
    Book,
    Software,
}

/// The kind as licenses name it.
pub open spec fn kind_name(kind: DigitalKind) -> Seq<char> {
    match kind {
        DigitalKind::Book => "book"@,
        DigitalKind::Software => "software"@,
    }
}

/// The key of a request, empty where it has none.
pub open spec fn asked_key(req: DownloadRequest) -> Seq<char> {
    match req.license_key {
        Some(s) => s@,
        None => Seq::empty(),
    }
}

/// Why a request for a download is refused on its own.
pub open spec fn download_refusal(req: DownloadRequest) -> Option<Fault> {
    if asked_key(req).len() == 0 {
        Some(Fault::Validation("licenseKey is required"@))
    } else if !is_license_key(stored_code(asked_key(req))) {
        Some(Fault::Validation("Invalid license key format"@))
    } else {
        None
    }
}

/// Checks a request for a download, and gives the key to look up.
pub fn check_download_request(req: &DownloadRequest) -> (r: Result<String, Error>)
    ensures
        match r {
            Ok(key) => download_refusal(*req) is None && key@ == stored_code(asked_key(*req)),
            Err(e) => download_refusal(*req) == Some(e@),
        },
{
    match &req.license_key {
        Some(raw) => {
            if raw.as_str().is_empty() {
                return Err(validation("licenseKey is required"));
            }
            check_license_key(raw.as_str())
        },
        None => Err(validation("licenseKey is required")),
    }
}

/// Why a license, `null` where there is none, gives a user no download.
pub open spec fn entitlement_refusal(
    license: Json,
    user_id: Seq<char>,
    kind: DigitalKind,
) -> Option<Fault> {
    if owner_refusal(license, user_id) is Some {
        owner_refusal(license, user_id)
    } else if json::text_at(license, fields::STATUS@) != Some("active"@) {
        Some(Fault::Forbidden("License revoked"@))
    } else if json::text_at(license, "digitalType"@) != Some(kind_name(kind)) {
        Some(
            match kind {
                DigitalKind::Book => Fault::Validation("Not a book license"@),
                DigitalKind::Software => Fault::Validation("Not a software license"@),
            },
        )
    } else {
        None
    }
}

/// Checks that a license, `null` where there is none, gives a user a download.
pub fn check_entitlement(license: &serde_json::Value, user_id: &str, kind: DigitalKind) -> (r:
    Result<(), Error>)
    ensures
        match r {
            Ok(()) => entitlement_refusal(json_of(*license), user_id@, kind) is None,
            Err(e) => entitlement_refusal(json_of(*license), user_id@, kind) == Some(e@),
        },
{
    if let Err(e) = check_owner(license, user_id) {
        return Err(e);
    }
    let active = match json::text_field(license, fields::STATUS) {
        Some(s) => text::same(s, "active"),
        None => false,
    };
    if !active {
        return Err(forbidden("License revoked"));
    }
    let named = json::text_field(license, "digitalType");
    match kind {
        DigitalKind::Book => {
            if let Some(s) = named {
                if text::same(s, "book") {
                    return Ok(());
                }
            }
            Err(validation("Not a book license"))
        },
        DigitalKind::Software => {
            if let Some(s) = named {
                if text::same(s, "software") {
                    return Ok(());
                }
            }
            Err(validation("Not a software license"))
        },
    }
}

/// Where a license says that its download lies.
pub open spec fn source_of(license: Json, kind: DigitalKind) -> Json {
    match kind {
        DigitalKind::Book => Json::Str(json::text_or_empty(license, "bookSourceUrl"@)),
        DigitalKind::Software => match json::member(license, "softwareSourceUrl"@) {
            Some(x) => x,
            None => match json::member(license, "downloadUrl"@) {
                Some(x) => x,
                None => Json::Str(Seq::empty()),
            },
        },
    }
}

/// Where a license says that its download lies.
pub fn download_source(license: &serde_json::Value, kind: DigitalKind) -> (r: serde_json::Value)
    ensures
        json_of(r) == source_of(json_of(*license), kind),
{
    match kind {
        DigitalKind::Book => json::string(json::text_field_or_empty(license, "bookSourceUrl")),
        DigitalKind::Software => match json::get(license, "softwareSourceUrl") {
            Some(x) => json::copy(x),
            None => match json::get(license, "downloadUrl") {
                Some(x) => json::copy(x),
                None => {
                    let none = String::new();
                    assert(none@ =~= Seq::<char>::empty());
                    json::string(none.as_str())
                },
            },
        },
    }
}

/// A download token as it is stored.
pub struct DownloadToken {
    pub access_token: String,
    pub license_key: String,
    pub user_id: String,
    pub product_id: String,
    pub source_url: serde_json::Value,
    pub expires_at: String,
    pub used: bool,
    pub created_at: String,
}

/// The instant at which a download token made at `now` stops working.
pub open spec fn token_end(now: Timestamp) -> Timestamp {
    now.earlier_by(-(rules::DOWNLOAD_TOKEN_MINUTES * 60))
}

/// The path that a download link begins with.
pub open spec fn link_path(kind: DigitalKind) -> Seq<char> {
    match kind {
        DigitalKind::Book => "/dl?t="@,
        DigitalKind::Software => "/sdl?t="@,
    }
}

/// A token and a link that give the download of a license to whoever asked for
/// it at `now`.
pub open spec fn grants(
    token: DownloadToken,
    link: DownloadResponse,
    license: Json,
    req: DownloadRequest,
    kind: DigitalKind,
    now: Timestamp,
) -> bool {
    &&& token.user_id@ == req.user_id@
    &&& token.product_id@ == req.product_id@
    &&& json_of(token.source_url) == source_of(license, kind)
    &&& token.expires_at@ == time::rfc3339_text(token_end(now))
    &&& !token.used
    &&& token.created_at@ == time::rfc3339_text(now)
    &&& link.download_url@ == link_path(kind) + token.access_token@
}

/// The token and the link of a download, where chance gave `random`.
pub fn download_token(
    license: &serde_json::Value,
    key: String,
    req: &DownloadRequest,
    kind: DigitalKind,
    random: [u8; 16],
    now: Timestamp,
) -> (r: (DownloadToken, DownloadResponse))
    requires
        now.of_clock(),
        token_end(now).of_clock(),
    ensures
        r.0.access_token@ == "tok_"@ + ids::hex_digits(random@),
        r.0.license_key == key,
        grants(r.0, r.1, json_of(*license), *req, kind, now),
        time::in_common_years(token_end(now)) ==> time::rfc3339_instant(r.0.expires_at@) == Some(
            token_end(now),
        ),
{
    let token = ids::token_of(random);
    let end = now.minus_seconds(-(rules::DOWNLOAD_TOKEN_MINUTES * 60));
    let download_url = match kind {
        DigitalKind::Book => text::join2("/dl?t=", token.as_str()),
        DigitalKind::Software => text::join2("/sdl?t=", token.as_str()),
    };
    (
        DownloadToken {
            access_token: token,
            license_key: key,
            user_id: req.user_id.clone(),
            product_id: req.product_id.clone(),
            source_url: download_source(license, kind),
            expires_at: time::to_rfc3339(end),
            used: false,
            created_at: time::to_rfc3339(now),
        },
        DownloadResponse { download_url },
    )
}

/// A fresh token and its link.
pub fn fresh_download_token(
    license: &serde_json::Value,
    key: String,
    req: &DownloadRequest,
    kind: DigitalKind,
    now: Timestamp,
) -> (r: (DownloadToken, DownloadResponse))
    requires
        now.of_clock(),
        token_end(now).of_clock(),
    ensures
        exists|random: [u8; 16]|
            ids::is_random_id(random@) && r.0.access_token@ == "tok_"@ + ids::hex_digits(
                #[trigger] random@,
            ),
        r.0.license_key == key,
        grants(r.0, r.1, json_of(*license), *req, kind, now),
{
    let random = ids::fresh_bytes();
    download_token(license, key, req, kind, random, now)
}

// ------------------------------------------------------------------- redirects

/// Checks that a token has the form of one: it is not blank and has no more
/// than 255 bytes.
pub fn validate_string_token(field: &str, token: &str) -> (r: Result<(), Error>)
    ensures
        match r {
            Ok(()) => !text::is_blank(token@) && encode_utf8(token@).len() <= 255,
            Err(e) => (text::is_blank(token@) || encode_utf8(token@).len() > 255) && e@
                == Fault::Validation(field@ + " is invalid"@),
        },
{
    if text::blank(token) || text::byte_len(token) > 255 {
        return Err(Error::Validation(text::join2(field, " is invalid")));
    }
    Ok(())
}

/// Why a download token does not work at `now`.
pub open spec fn token_refusal(token: Json, now: Timestamp) -> Option<Fault> {
    if json::flag_at_or(token, "used"@, false) {
        Some(Fault::Forbidden("Download token already used"@))
    } else {
        match json::text_at(token, fields::EXPIRES_AT@) {
            None => Some(Fault::Validation("Token missing expiration"@)),
            Some(s) => match time::rfc3339_instant(s) {
                None => Some(Fault::Validation("Token expiration is invalid"@)),
                Some(end) => if now.is_after(end) {
                    Some(Fault::Forbidden("Download token expired"@))
                } else {
                    None
                },
            },
        }
    }
}

/// Checks that a download token works at `now`.
pub fn token_state_at(token_doc: &serde_json::Value, now: Timestamp) -> (r: Result<(), Error>)
    ensures
        match r {
            Ok(()) => token_refusal(json_of(*token_doc), now) is None,
            Err(e) => token_refusal(json_of(*token_doc), now) == Some(e@),
        },
{
    if json::flag_field_or(token_doc, "used", false) {
        return Err(forbidden("Download token already used"));
    }
    let text = match json::text_field(token_doc, fields::EXPIRES_AT) {
        Some(s) => s,
        None => return Err(validation("Token missing expiration")),
    };
    let end = match parse_instant(text) {
        Some(t) => t,
        None => return Err(validation("Token expiration is invalid")),
    };
    if now.after(end) {
        return Err(forbidden("Download token expired"));
    }
    Ok(())
}

/// Checks that a download token works now, by the system clock.
pub fn validate_redirect_token_state(token_doc: &serde_json::Value) -> (r: Result<(), Error>)
    ensures
        exists|now: Timestamp| #[trigger]
            now.of_clock() && match r {
                Ok(()) => token_refusal(json_of(*token_doc), now) is None,
                Err(e) => token_refusal(json_of(*token_doc), now) == Some(e@),
            },
{
    let now = time::now();
    token_state_at(token_doc, now)
}

/// Where a download token leads.
pub open spec fn target_of(token: Json, kind: DigitalKind) -> Option<Seq<char>> {
    match kind {
        DigitalKind::Book => json::text_at(token, "bookSourceUrl"@),
        DigitalKind::Software => match json::member(token, "softwareSourceUrl"@) {
            Some(x) => json::as_text(x),
            None => json::text_at(token, "downloadUrl"@),
        },
    }
}

/// Where a download token leads.
pub fn redirect_target(token_doc: &serde_json::Value, kind: DigitalKind) -> (r: Result<
    String,
    Error,
>)
    ensures
        match r {
            Ok(url) => target_of(json_of(*token_doc), kind) == Some(url@),
            Err(e) => target_of(json_of(*token_doc), kind) is None && e@ == Fault::NotFound(
                "Download URL not found"@,
            ),
        },
{
    let found = match kind {
        DigitalKind::Book => json::text_field(token_doc, "bookSourceUrl"),
        DigitalKind::Software => match json::get(token_doc, "softwareSourceUrl") {
            Some(x) => json::as_str(x),
            None => json::text_field(token_doc, "downloadUrl"),
        },
    };
    match found {
        Some(s) => Ok(s.to_owned()),
        None => Err(not_found("Download URL not found")),
    }
}

/// A record identifier without the prefix of its collection.
pub open spec fn without_prefix(id: Seq<char>, collection: Seq<char>) -> Seq<char> {
    let prefix = collection + ":"@;
    if text::occurs_at(id, prefix, 0) {
        id.subrange(prefix.len() as int, id.len() as int)
    } else {
        id
    }
}

/// The key of a download token's record in its collection, where it has one.
pub fn token_key(token_doc: &serde_json::Value, collection: &str) -> (r: Option<String>)
    ensures
        match r {
            Some(k) => json::text_at(json_of(*token_doc), fields::ID@) matches Some(id) && k@
                == without_prefix(id, collection@),
            None => json::text_at(json_of(*token_doc), fields::ID@) is None,
        },
{
    let id = json::text_field(token_doc, fields::ID)?;
    let prefix = text::join2(collection, ":");
    if text::starts_with(id, prefix.as_str()) {
        let v = text::chars_of(id);
        let p = text::chars_of(prefix.as_str());
        Some(text::text_of(&v, p.len(), v.len()))
    } else {
        Some(id.to_owned())
    }
}

// ------------------------------------------------------------------------ laws

/// A license is never active on more devices than its limit, however often it
/// is activated: an activation that adds a device stays within the limit, and
/// one that does not keeps the number of activations.
pub proof fn law_device_limit(
    a: Activation,
    license: Json,
    key: Seq<char>,
    device: Seq<char>,
    platform: Seq<char>,
    stamp: Seq<char>,
)
    requires
        device_refusal(license, device) is None,
        activates(a, license, key, device, platform, stamp),
    ensures
        a.is_new ==> jsons(a.activations@).len() <= device_limit(license),
        !a.is_new ==> jsons(a.activations@).len() == activations_of(license).len(),
{
}

/// A device on which a license was activated is active on it afterwards, and
/// activating it again is never refused for the limit.
pub proof fn law_activation_takes_effect(
    a: Activation,
    license: Json,
    after: Json,
    key: Seq<char>,
    device: Seq<char>,
    platform: Seq<char>,
    stamp: Seq<char>,
)
    requires
        activates(a, license, key, device, platform, stamp),
        activations_of(after) == jsons(a.activations@),
    ensures
        is_active_on(activations_of(after), device),
        device_refusal(after, device) is None,
{
    let before = activations_of(license);
    let now = jsons(a.activations@);
    reveal_strlit("lastVerifiedAt");
    reveal_strlit("platform");
    reveal_strlit("activatedAt");
    reveal_strlit("deviceId");
    assert(fields::DEVICE_ID@.len() == 8);
    assert(fields::DEVICE_ID@[0] == 'd');
    if a.is_new {
        let x = new_activation(device, platform, stamp);
        assert(is_for_device(x, device));
        assert(now[before.len() as int] == x);
    } else {
        let i = choose|i: int| #[trigger]
            is_first_for(before, device, i) && now == before.update(
                i,
                verified_at(before[i], stamp),
            ) && a.response.activated_at@ == json::text_at_or(before[i], "activatedAt"@, stamp);
        assert(is_for_device(verified_at(before[i], stamp), device));
        assert(now[i] == verified_at(before[i], stamp));
    }
}

/// After a deactivation the device is no longer active, every other
/// activation is kept, and no new one appears.
pub proof fn law_deactivation_removes_device(activations: Seq<Json>, device: Seq<char>)
    ensures
        !is_active_on(without_device(activations, device), device),
        forall|a: Json| #[trigger]
            without_device(activations, device).contains(a) <==> activations.contains(a)
                && !is_for_device(a, device),
        without_device(activations, device).len() <= activations.len(),
        is_active_on(activations, device) ==> without_device(activations, device).len()
            < activations.len(),
    decreases activations.len(),
{
    if activations.len() > 0 {
        let init = activations.drop_last();
        let before = without_device(init, device);
        let now = without_device(activations, device);
        let last = activations.last();
        law_deactivation_removes_device(init, device);
        assert forall|i: int| 0 <= i < now.len() implies !is_for_device(
            #[trigger] now[i],
            device,
        ) by {
            if i < before.len() {
                assert(now[i] == before[i]);
            }
        }
        assert forall|a: Json| #[trigger] now.contains(a) <==> activations.contains(a)
            && !is_for_device(a, device) by {
            if now.contains(a) {
                let i = choose|i: int| 0 <= i < now.len() && now[i] == a;
                if i < before.len() {
                    assert(before[i] == a);
                    assert(before.contains(a));
                    let j = choose|j: int| 0 <= j < init.len() && init[j] == a;
                    assert(activations[j] == a);
                } else {
                    assert(activations[activations.len() - 1] == a);
                }
            }
            if activations.contains(a) && !is_for_device(a, device) {
                let j = choose|j: int| 0 <= j < activations.len() && activations[j] == a;
                if j < init.len() {
                    assert(init[j] == a);
                    assert(before.contains(a));
                    let i = choose|i: int| 0 <= i < before.len() && before[i] == a;
                    assert(now[i] == a);
                } else {
                    assert(now[before.len() as int] == a);
                }
            }
        }
        if is_active_on(activations, device) && !is_for_device(last, device) {
            let i = choose|i: int|
                0 <= i < activations.len() && is_for_device(#[trigger] activations[i], device);
            assert(init[i] == activations[i]);
        }
    }
}

/// Deactivating a device of a license that is not over its limit makes room:
/// any device can be activated afterwards.
pub proof fn law_deactivation_makes_room(
    license: Json,
    after: Json,
    device: Seq<char>,
    other: Seq<char>,
)
    requires
        is_active_on(activations_of(license), device),
        activations_of(license).len() <= device_limit(license),
        activations_of(after) == without_device(activations_of(license), device),
        device_limit(after) == device_limit(license),
    ensures
        device_refusal(after, other) is None,
{
    law_deactivation_removes_device(activations_of(license), device);
}

/// A download token works once: one that was used is refused for ever.
pub proof fn law_token_works_once(token: Json, now: Timestamp)
    requires
        json::flag_at(token, "used"@) == Some(true),
    ensures
        token_refusal(token, now) == Some(Fault::Forbidden("Download token already used"@)),
{
}

/// A download token that was made at `made` and not used yet works up to the
/// end of its time, and not after.
pub proof fn law_token_lifetime(token: Json, made: Timestamp, now: Timestamp)
    requires
        made.of_clock(),
        !json::flag_at_or(token, "used"@, false),
        stored_instant(token, fields::EXPIRES_AT@) == Some(token_end(made)),
    ensures
        token_refusal(token, now) is None <==> !now.is_after(token_end(made)),
        token_end(made).secs == made.secs + 15 * 60,
{
}

/// A license is activated for a user only where it exists, the text at its
/// `status` is `active` and the user owns it; no other license is, whatever
/// its status.
pub proof fn law_only_active_licenses_are_activated(license: Json, user_id: Seq<char>)
    ensures
        license_refusal(license, user_id) is None <==> {
            &&& !(license is Null)
            &&& json::text_at(license, "status"@) == Some("active"@)
            &&& json::text_or_empty(license, "userId"@) == user_id
        },
        !(license is Null) && json::text_at(license, "status"@) != Some("active"@)
            ==> license_refusal(license, user_id) == Some(
            Fault::Forbidden("License has been revoked"@),
        ),
{
}

/// A license that is activated on a device is one that verification reports as
/// valid.
pub proof fn law_activated_license_is_valid(
    license: Json,
    user_id: Seq<char>,
    v: Verification,
    key: Seq<char>,
    device: Option<Seq<char>>,
    stamp: Seq<char>,
)
    requires
        license_refusal(license, user_id) is None,
        verifies(v, license, key, device, stamp),
    ensures
        v.response.valid,
        v.response.status@ == "active"@,
{
}

/// Verification calls a license valid exactly where the text at its `status`
/// is `active`, tells that text, and changes nothing but the time at which
/// the device was last verified.
pub proof fn law_verification_tells_the_status(
    v: Verification,
    license: Json,
    key: Seq<char>,
    device: Option<Seq<char>>,
    stamp: Seq<char>,
)
    requires
        verifies(v, license, key, device, stamp),
    ensures
        v.response.valid <==> json::text_at(license, "status"@) == Some("active"@),
        json::text_at(license, "status"@) matches Some(s) ==> v.response.status@ == s,
        v.response.license_key@ == key,
        v.response.product_name@ == json::text_or_empty(license, "productName"@),
        v.activations is Some <==> (device matches Some(d) && exists|i: int|
            0 <= i < json::items_at(license, "activations"@).len() && json::text_at(
                #[trigger] json::items_at(license, "activations"@)[i],
                "deviceId"@,
            ) == Some(d)),
        v.activations matches Some(a) ==> {
            let before = json::items_at(license, "activations"@);
            &&& a@.len() == before.len()
            &&& forall|i: int|
                0 <= i < before.len() ==> #[trigger] jsons(a@)[i] == if json::text_at(
                    before[i],
                    "deviceId"@,
                ) == Some(device->0) {
                    json::with_text(before[i], "lastVerifiedAt"@, stamp)
                } else {
                    before[i]
                }
        },
{
    reveal_strlit("unknown");
    reveal_strlit("active");
    assert("unknown"@.len() == 7 && "active"@.len() == 6);
    let before = json::items_at(license, "activations"@);
    if let Some(d) = device {
        if exists|i: int|
            0 <= i < before.len() && json::text_at(#[trigger] before[i], "deviceId"@) == Some(d) {
            let i = choose|i: int|
                0 <= i < before.len() && json::text_at(#[trigger] before[i], "deviceId"@) == Some(
                    d,
                );
            assert(is_for_device(before[i], d));
        }
        if is_active_on(before, d) {
            let i = choose|i: int| 0 <= i < before.len() && is_for_device(#[trigger] before[i], d);
            assert(json::text_at(before[i], "deviceId"@) == Some(d));
        }
    }
    if let Some(a) = v.activations {
        assert(jsons(a@).len() == a@.len());
    }
}

/// A device is refused exactly where it is not active on the license and the
/// license is active on as many devices as it allows: those it names, or else
/// three.
pub proof fn law_refused_only_at_the_limit(license: Json, device: Seq<char>)
    ensures
        ({
            let active = json::items_at(license, "activations"@);
            let limit = json::nat_at_or(license, "deviceLimit"@, 3) as int;
            let known = exists|i: int|
                0 <= i < active.len() && json::text_at(#[trigger] active[i], "deviceId"@) == Some(
                    device,
                );
            device_refusal(license, device) is Some <==> !known && active.len() >= limit
        }),
{
    let active = json::items_at(license, "activations"@);
    if exists|i: int|
        0 <= i < active.len() && json::text_at(#[trigger] active[i], "deviceId"@) == Some(device) {
        let i = choose|i: int|
            0 <= i < active.len() && json::text_at(#[trigger] active[i], "deviceId"@) == Some(
                device,
            );
        assert(is_for_device(active[i], device));
    }
    if is_active_on(active, device) {
        let i = choose|i: int|
            0 <= i < active.len() && is_for_device(#[trigger] active[i], device);
        assert(json::text_at(active[i], "deviceId"@) == Some(device));
    }
}

/// An activation keeps every other device's activation as it is. A new device
/// is added behind them with its identifier, its platform and the time; one
/// that is active already keeps the time at which it was first activated.
pub proof fn law_activation_keeps_the_others(
    a: Activation,
    license: Json,
    key: Seq<char>,
    device: Seq<char>,
    platform: Seq<char>,
    stamp: Seq<char>,
    i: int,
)
    requires
        activates(a, license, key, device, platform, stamp),
        0 <= i < json::items_at(license, "activations"@).len(),
    ensures
        ({
            let before = json::items_at(license, "activations"@);
            let after = jsons(a.activations@);
            &&& json::text_at(before[i], "deviceId"@) != Some(device) ==> after[i] == before[i]
            &&& after.len() == before.len() || after.len() == before.len() + 1
            &&& after.len() == before.len() + 1 ==> {
                let added = after[before.len() as int];
                &&& json::text_at(added, "deviceId"@) == Some(device)
                &&& json::text_at(added, "platform"@) == Some(platform)
                &&& json::text_at(added, "activatedAt"@) == Some(stamp)
                &&& json::text_at(added, "lastVerifiedAt"@) == Some(stamp)
                &&& a.response.activated_at@ == stamp
                &&& json::text_at(before[i], "deviceId"@) != Some(device)
            }
            &&& json::text_at(before[i], "deviceId"@) == Some(device) ==> after.len()
                == before.len() && json::text_at(after[i], "activatedAt"@) == json::text_at(
                before[i],
                "activatedAt"@,
            )
        }),
        a.response.approved,
        a.response.license_key@ == key,
        a.response.product_name@ == json::text_or_empty(license, "productName"@),
        a.updated_at@ == stamp,
{
    let before = json::items_at(license, "activations"@);
    let after = jsons(a.activations@);
    reveal_strlit("lastVerifiedAt");
    reveal_strlit("platform");
    reveal_strlit("activatedAt");
    reveal_strlit("deviceId");
    assert("lastVerifiedAt"@.len() == 14 && "platform"@.len() == 8 && "activatedAt"@.len() == 11
        && "deviceId"@.len() == 8);
    assert("platform"@[0] == 'p' && "deviceId"@[0] == 'd');
    if json::text_at(before[i], "deviceId"@) == Some(device) {
        assert(is_for_device(before[i], device));
    }
    if !a.is_new {
        let k = choose|k: int| #[trigger]
            is_first_for(before, device, k) && after == before.update(
                k,
                verified_at(before[k], stamp),
            ) && a.response.activated_at@ == json::text_at_or(before[k], "activatedAt"@, stamp);
        assert(is_for_device(before[k], device));
    }
}

/// Deactivating keeps the activations of other devices, in their order, and
/// drops those of the device.
pub proof fn law_deactivation_step(activations: Seq<Json>, last: Json, device: Seq<char>)
    ensures
        without_device(activations.push(last), device) == if json::text_at(last, "deviceId"@)
            == Some(device) {
            without_device(activations, device)
        } else {
            without_device(activations, device).push(last)
        },
        without_device(Seq::empty(), device) == Seq::<Json>::empty(),
{
    assert(activations.push(last).drop_last() =~= activations);
}

/// A license is deactivated for its owner, whatever its status, and for nobody
/// else.
pub proof fn law_owner_deactivates(license: Json, user_id: Seq<char>)
    ensures
        owner_refusal(license, user_id) is None <==> !(license is Null) && json::text_or_empty(
            license,
            "userId"@,
        ) == user_id,
{
}

/// A user gets a download exactly where they own the license, the text at its
/// `status` is `active`, and it is one for what they ask for.
pub proof fn law_download_needs_active_license(
    license: Json,
    user_id: Seq<char>,
    kind: DigitalKind,
)
    ensures
        entitlement_refusal(license, user_id, kind) is None <==> {
            &&& !(license is Null)
            &&& json::text_or_empty(license, "userId"@) == user_id
            &&& json::text_at(license, "status"@) == Some("active"@)
            &&& json::text_at(license, "digitalType"@) == Some(
                match kind {
                    DigitalKind::Book => "book"@,
                    DigitalKind::Software => "software"@,
                },
            )
        },
{
}

/// A request on a license is taken exactly where its key, trimmed and in
/// capital letters, is four groups of four capital letters and digits, and it
/// names what it needs besides.
pub proof fn law_license_requests_taken(
    activate: ActivateLicenseRequest,
    deactivate: DeactivateLicenseRequest,
    download: DownloadRequest,
)
    ensures
        activation_refusal(activate) is None <==> is_license_key(
            text::uppercase(text::trimmed(activate.license_key@)),
        ) && !text::is_blank(activate.device_id@),
        deactivation_refusal(deactivate) is None <==> is_license_key(
            text::uppercase(text::trimmed(deactivate.license_key@)),
        ) && deactivate.device_id@.len() > 0,
        download_refusal(download) is None <==> (download.license_key matches Some(k) && k@.len()
            > 0 && is_license_key(text::uppercase(text::trimmed(k@)))),
{
}

/// A license key has 19 characters: hyphens after each of the first three
/// groups of four, and ASCII capital letters and digits everywhere else.
pub proof fn law_license_key_form(s: Seq<char>)
    ensures
        is_license_key(s) <==> s.len() == 19 && forall|i: int|
            0 <= i < 19 ==> if i % 5 == 4 {
                #[trigger] s[i] == '-'
            } else {
                'A' <= s[i] <= 'Z' || '0' <= s[i] <= '9'
            },
{
    if is_license_key(s) {
        assert forall|i: int| 0 <= i < 19 implies if i % 5 == 4 {
            #[trigger] s[i] == '-'
        } else {
            'A' <= s[i] <= 'Z' || '0' <= s[i] <= '9'
        } by {
            if i % 5 != 4 {
                assert(is_code_char(s[i]));
            }
        }
    }
    if s.len() == 19 && forall|i: int|
        0 <= i < 19 ==> if i % 5 == 4 {
            #[trigger] s[i] == '-'
        } else {
            'A' <= s[i] <= 'Z' || '0' <= s[i] <= '9'
        } {
        assert(s[4] == '-' && s[9] == '-' && s[14] == '-');
        assert forall|i: int| 0 <= i < 19 && i % 5 != 4 implies is_code_char(#[trigger] s[i]) by {}
    }
}

/// A download token works exactly where it was not used, says when it ends,
/// and has not ended.
pub proof fn law_token_works_until_its_end(token: Json, now: Timestamp)
    ensures
        token_refusal(token, now) is None <==> {
            &&& json::flag_at(token, "used"@) != Some(true)
            &&& stored_instant(token, "expiresAt"@) matches Some(end) && !now.is_after(end)
        },
{
}

/// A book is downloaded from where its license and its token say, software
/// from where they say, or else from the older field.
pub proof fn law_download_source(doc: Json)
    ensures
        source_of(doc, DigitalKind::Book) == Json::Str(json::text_or_empty(doc, "bookSourceUrl"@)),
        target_of(doc, DigitalKind::Book) == json::text_at(doc, "bookSourceUrl"@),
        json::member(doc, "softwareSourceUrl"@) matches Some(x) ==> source_of(
            doc,
            DigitalKind::Software,
        ) == x && target_of(doc, DigitalKind::Software) == json::as_text(x),
        json::member(doc, "softwareSourceUrl"@) is None ==> {
            &&& target_of(doc, DigitalKind::Software) == json::text_at(doc, "downloadUrl"@)
            &&& json::member(doc, "downloadUrl"@) matches Some(x) ==> source_of(
                doc,
                DigitalKind::Software,
            ) == x
        },
        link_path(DigitalKind::Book) == "/dl?t="@,
        link_path(DigitalKind::Software) == "/sdl?t="@,
{
}

/// A deactivation answers with how many activations are left, all of other
/// devices, and none of them is lost.
pub proof fn law_deactivation_answers(
    d: Deactivation,
    license: Json,
    device: Seq<char>,
    stamp: Seq<char>,
    a: Json,
)
    requires
        deactivates(d, license, device, stamp),
    ensures
        d.response.deactivated,
        d.response.remaining_activations == jsons(d.activations@).len(),
        jsons(d.activations@).contains(a) <==> json::items_at(license, "activations"@).contains(a)
            && json::text_at(a, "deviceId"@) != Some(device),
        d.updated_at@ == stamp,
{
    law_deactivation_removes_device(activations_of(license), device);
}

/// A token that was just made works for 15 minutes, belongs to whoever asked for
/// it, leads to where the license says, and is what the link carries.
pub proof fn law_granted_token_works(
    token: DownloadToken,
    link: DownloadResponse,
    license: Json,
    req: DownloadRequest,
    kind: DigitalKind,
    made: Timestamp,
    doc: Json,
    now: Timestamp,
)
    requires
        grants(token, link, license, req, kind, made),
        json::flag_at(doc, "used"@) == Some(token.used),
        json::text_at(doc, "expiresAt"@) == Some(token.expires_at@),
        time::rfc3339_instant(time::rfc3339_text(token_end(made))) == Some(token_end(made)),
        made.of_clock(),
        now.of_clock(),
    ensures
        token_refusal(doc, now) is None <==> time::nanos_between(now, made) <= 15 * 60
            * 1_000_000_000,
        token.user_id@ == req.user_id@ && token.product_id@ == req.product_id@,
        kind == DigitalKind::Book ==> json_of(token.source_url) == Json::Str(
            json::text_or_empty(license, "bookSourceUrl"@),
        ) && link.download_url@ == "/dl?t="@ + token.access_token@,
        kind == DigitalKind::Software ==> link.download_url@ == "/sdl?t="@ + token.access_token@,
        token.created_at@ == time::rfc3339_text(made),
{
    assert(time::nanos_between(now, made) == (now.secs - made.secs) * 1_000_000_000 + (now.nanos
        - made.nanos));
}

} // verus!

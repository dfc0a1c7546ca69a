//! Buyer addresses and address suggestions.
use vstd::prelude::*;
use vstd::utf8::*;

use crate::auth::AuthContext;
use crate::error::{auth_error, validation, Error, Fault};
use crate::json;
use crate::json::{json_of, jsons};
use crate::text;
use crate::text::{char_removed, is_letter, is_number, uppercase};

verus! {

/// The filter that keeps suggestions to Canada.
pub const COUNTRY_FILTER: &'static str = "countrycode:ca";

// ------------------------------------------------------- requests and answers

#[derive(Debug)]
pub struct AddressSuggestionsRequest {
    pub query: String,
    pub limit: Option<usize>,
    pub country: Option<String>,
}

#[derive(Debug)]
pub struct AddressSuggestionsResponse {
    pub features: Vec<serde_json::Value>,
}

#[derive(Debug, Clone)]
pub struct AddressPayload {
    pub label: String,
    pub street: String,
    pub city: String,
    pub province: String,
    pub postal_code: String,
    pub country: String,
    pub apartment: Option<String>,
}

#[derive(Debug)]
pub struct AddBuyerAddressRequest {
    pub user_id: String,
    pub address: AddressPayload,
}

#[derive(Debug)]
pub struct AddBuyerAddressResponse {
    pub success: bool,
    pub address_id: String,
}

#[derive(Debug)]
pub struct UpdateBuyerAddressRequest {
    pub user_id: String,
    pub address_id: String,
    pub address: AddressPayload,
}

#[derive(Debug)]
pub struct DeleteBuyerAddressRequest {
    pub user_id: String,
    pub address_id: String,
}

#[derive(Debug)]
pub struct SetDefaultBuyerAddressRequest {
    pub user_id: String,
    pub address_id: String,
}

#[derive(Debug)]
pub struct SuccessResponse {
    pub success: bool,
}

// -------------------------------------------------------------------- validity

/// A postal code without spaces, in capital letters.
pub open spec fn compact_code(pc: Seq<char>) -> Seq<char> {
    uppercase(char_removed(pc, ' '))
}

/// Letters and numbers alternate, a letter first.
pub open spec fn alternates(s: Seq<char>) -> bool {
    forall|i: int|
        0 <= i < s.len() ==> if i % 2 == 0 {
            is_letter(#[trigger] s[i])
        } else {
            is_number(s[i])
        }
}

/// Why a postal code, compacted, is refused.
pub open spec fn code_refusal(compact: Seq<char>) -> Option<Fault> {
    if encode_utf8(compact).len() != 6 {
        Some(Fault::Validation("Canadian postal code must be 6 characters"@))
    } else if !alternates(compact) {
        Some(Fault::Validation("Invalid postal code format"@))
    } else {
        None
    }
}

/// Checks a postal code that was compacted.
pub fn check_compact_code(compact: &str) -> (r: Result<(), Error>)
    ensures
        match r {
            Ok(()) => code_refusal(compact@) is None,
            Err(e) => code_refusal(compact@) == Some(e@),
        },
{
    if text::byte_len(compact) != 6 {
        return Err(validation("Canadian postal code must be 6 characters"));
    }
    let v = text::chars_of(compact);
    let mut i: usize = 0;
    while i < v.len()
        invariant
            i <= v@.len(),
            v@ == compact@,
            encode_utf8(compact@).len() == 6,
            forall|j: int|
                0 <= j < i ==> if j % 2 == 0 {
                    is_letter(#[trigger] compact@[j])
                } else {
                    is_number(compact@[j])
                },
        decreases v@.len() - i,
    {
        let fits = if i % 2 == 0 {
            v[i].is_alphabetic()
        } else {
            v[i].is_numeric()
        };
        if !fits {
            assert(compact@[i as int] == v@[i as int]);
            return Err(validation("Invalid postal code format"));
        }
        i = i + 1;
    }
    Ok(())
}

/// Checks a Canadian postal code, with or without spaces.
pub fn validate_postal_code(pc: &str) -> (r: Result<(), Error>)
    ensures
        match r {
            Ok(()) => code_refusal(compact_code(pc@)) is None,
            Err(e) => code_refusal(compact_code(pc@)) == Some(e@),
        },
{
    let bare = text::remove_char(pc, ' ');
    let compact = text::to_uppercase(bare.as_str());
    check_compact_code(compact.as_str())
}

/// Why an address is refused.
pub open spec fn address_refusal(addr: AddressPayload) -> Option<Fault> {
    if text::is_blank(addr.label@) {
        Some(Fault::Validation("label is required"@))
    } else if text::is_blank(addr.street@) {
        Some(Fault::Validation("street is required"@))
    } else if text::is_blank(addr.city@) {
        Some(Fault::Validation("city is required"@))
    } else if text::is_blank(addr.province@) {
        Some(Fault::Validation("province is required"@))
    } else if uppercase(addr.country@) != "CA"@ {
        Some(Fault::Validation("Only Canadian addresses are currently supported"@))
    } else if code_refusal(compact_code(addr.postal_code@)) is Some {
        code_refusal(compact_code(addr.postal_code@))
    } else if addr.apartment matches Some(a) && encode_utf8(a@).len() > 50 {
        Some(Fault::Validation("apartment too long"@))
    } else {
        None
    }
}

/// Checks an address.
pub fn validate_address_payload(addr: &AddressPayload) -> (r: Result<(), Error>)
    ensures
        match r {
            Ok(()) => address_refusal(*addr) is None,
            Err(e) => address_refusal(*addr) == Some(e@),
        },
{
    if text::blank(addr.label.as_str()) {
        return Err(validation("label is required"));
    }
    if text::blank(addr.street.as_str()) {
        return Err(validation("street is required"));
    }
    if text::blank(addr.city.as_str()) {
        return Err(validation("city is required"));
    }
    if text::blank(addr.province.as_str()) {
        return Err(validation("province is required"));
    }
    if !text::same(text::to_uppercase(addr.country.as_str()).as_str(), "CA") {
        return Err(validation("Only Canadian addresses are currently supported"));
    }
    if let Err(e) = validate_postal_code(addr.postal_code.as_str()) {
        return Err(e);
    }
    if let Some(a) = &addr.apartment {
        if text::byte_len(a.as_str()) > 50 {
            return Err(validation("apartment too long"));
        }
    }
    Ok(())
}

// ---------------------------------------------------------------------- access

/// Why a caller may not change the addresses of a user.
pub open spec fn access_refusal(auth: AuthContext, user_id: Seq<char>) -> Option<Fault> {
    if !auth.authenticated || auth.user_id@ != user_id {
        Some(Fault::Auth("Unauthorized"@))
    } else {
        None
    }
}

/// Checks that a caller may change the addresses of a user.
pub fn check_address_access(auth: &AuthContext, user_id: &str) -> (r: Result<(), Error>)
    ensures
        match r {
            Ok(()) => access_refusal(*auth, user_id@) is None,
            Err(e) => access_refusal(*auth, user_id@) == Some(e@),
        },
{
    if !auth.authenticated || !text::same(auth.user_id.as_str(), user_id) {
        return Err(auth_error("Unauthorized"));
    }
    Ok(())
}

/// Checks a request to add an address.
pub fn check_add_address(auth: &AuthContext, req: &AddBuyerAddressRequest) -> (r: Result<
    (),
    Error,
>)
    ensures
        match r {
            Ok(()) => access_refusal(*auth, req.user_id@) is None && address_refusal(req.address)
                is None,
            Err(e) => match access_refusal(*auth, req.user_id@) {
                Some(f) => e@ == f,
                None => address_refusal(req.address) == Some(e@),
            },
        },
{
    if let Err(e) = check_address_access(auth, req.user_id.as_str()) {
        return Err(e);
    }
    validate_address_payload(&req.address)
}

/// Checks a request to change an address, where `id_check` says whether its
/// identifier has the form of one.
pub fn check_update_address(
    auth: &AuthContext,
    req: &UpdateBuyerAddressRequest,
    id_check: Result<(), Error>,
) -> (r: Result<(), Error>)
    ensures
        match r {
            Ok(()) => {
                &&& access_refusal(*auth, req.user_id@) is None
                &&& id_check is Ok
                &&& address_refusal(req.address) is None
            },
            Err(e) => match access_refusal(*auth, req.user_id@) {
                Some(f) => e@ == f,
                None => match id_check {
                    Err(f) => e == f,
                    Ok(()) => address_refusal(req.address) == Some(e@),
                },
            },
        },
{
    if let Err(e) = check_address_access(auth, req.user_id.as_str()) {
        return Err(e);
    }
    match id_check {
        Ok(()) => validate_address_payload(&req.address),
        Err(e) => Err(e),
    }
}

/// Checks a request to delete an address, where `id_check`
/// says whether its identifier has the form of one.
pub fn check_delete_address(
    auth: &AuthContext,
    req: &DeleteBuyerAddressRequest,
    id_check: Result<(), Error>,
) -> (r: Result<(), Error>)
    ensures
        match r {
            Ok(()) => access_refusal(*auth, req.user_id@) is None && id_check is Ok,
            Err(e) => match access_refusal(*auth, req.user_id@) {
                Some(f) => e@ == f,
                None => id_check == Err::<(), Error>(e),
            },
        },
{
    if let Err(e) = check_address_access(auth, req.user_id.as_str()) {
        return Err(e);
    }
    id_check
}

/// Checks a request to make an address the default, where `id_check`
/// says whether its identifier has the form of one.
pub fn check_default_address(
    auth: &AuthContext,
    req: &SetDefaultBuyerAddressRequest,
    id_check: Result<(), Error>,
) -> (r: Result<(), Error>)
    ensures
        match r {
            Ok(()) => access_refusal(*auth, req.user_id@) is None && id_check is Ok,
            Err(e) => match access_refusal(*auth, req.user_id@) {
                Some(f) => e@ == f,
                None => id_check == Err::<(), Error>(e),
            },
        },
{
    if let Err(e) = check_address_access(auth, req.user_id.as_str()) {
        return Err(e);
    }
    id_check
}

/// Nobody but the signed-in user themself changes their addresses.
pub proof fn law_addresses_are_private(auth: AuthContext, user_id: Seq<char>)
    ensures
        access_refusal(auth, user_id) is None <==> auth.authenticated && auth.user_id@ == user_id,
{
}

// ----------------------------------------------------------------- suggestions

/// Why a request for suggestions is refused.
pub open spec fn suggestions_refusal(
    auth: AuthContext,
    req: AddressSuggestionsRequest,
) -> Option<Fault> {
    if !auth.authenticated {
        Some(Fault::Auth("Must be authenticated"@))
    } else if text::is_blank(req.query@) {
        Some(Fault::Validation("query is required"@))
    } else {
        None
    }
}

/// Checks a request for suggestions.
pub fn check_suggestions(auth: &AuthContext, req: &AddressSuggestionsRequest) -> (r: Result<
    (),
    Error,
>)
    ensures
        match r {
            Ok(()) => suggestions_refusal(*auth, *req) is None,
            Err(e) => suggestions_refusal(*auth, *req) == Some(e@),
        },
{
    if !auth.authenticated {
        return Err(auth_error("Must be authenticated"));
    }
    if text::blank(req.query.as_str()) {
        return Err(validation("query is required"));
    }
    Ok(())
}

/// The answer to a request for suggestions, from that of the service.
pub fn suggestions_answer(data: &serde_json::Value) -> (r: AddressSuggestionsResponse)
    ensures
        jsons(r.features@) == json::items_at(json_of(*data), "features"@),
{
    AddressSuggestionsResponse { features: json::list_copy(data, "features") }
}

/// An address is taken exactly where its label, street, city and province are
/// not blank, its country is `CA` in capital or small letters, its postal code
/// is one, and its apartment has no more than 50 bytes.
pub proof fn law_address_taken(addr: AddressPayload)
    ensures
        address_refusal(addr) is None <==> {
            &&& !text::is_blank(addr.label@)
            &&& !text::is_blank(addr.street@)
            &&& !text::is_blank(addr.city@)
            &&& !text::is_blank(addr.province@)
            &&& uppercase(addr.country@) == "CA"@
            &&& code_refusal(uppercase(char_removed(addr.postal_code@, ' '))) is None
            &&& addr.apartment matches Some(a) ==> encode_utf8(a@).len() <= 50
        },
{
}

/// A compacted postal code is taken exactly where it has six bytes and letters
/// stand at its even and numbers at its odd places.
pub proof fn law_postal_code_taken(compact: Seq<char>)
    ensures
        code_refusal(compact) is None <==> encode_utf8(compact).len() == 6 && forall|i: int|
            0 <= i < compact.len() ==> (i % 2 == 0 ==> is_letter(#[trigger] compact[i])) && (i % 2
                == 1 ==> is_number(compact[i])),
        encode_utf8(compact).len() != 6 ==> code_refusal(compact) == Some(
            Fault::Validation("Canadian postal code must be 6 characters"@),
        ),
{
    if code_refusal(compact) is None {
        assert forall|i: int| 0 <= i < compact.len() implies (i % 2 == 0 ==> is_letter(
            #[trigger] compact[i],
        )) && (i % 2 == 1 ==> is_number(compact[i])) by {
            assert(is_letter(compact[i]) || is_number(compact[i]));
        }
    }
}

/// Suggestions are given to whoever is signed in and asks for something.
pub proof fn law_suggestions_given(auth: AuthContext, req: AddressSuggestionsRequest)
    ensures
        suggestions_refusal(auth, req) is None <==> auth.authenticated && !text::is_blank(
            req.query@,
        ),
{
}

} // verus!

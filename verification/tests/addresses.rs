use ob_handlers::addresses::{
    check_add_address, check_default_address, check_delete_address, check_suggestions,
    check_update_address, suggestions_answer, validate_address_payload, validate_postal_code, AddBuyerAddressRequest,
    AddressPayload, AddressSuggestionsRequest, DeleteBuyerAddressRequest,
    SetDefaultBuyerAddressRequest, UpdateBuyerAddressRequest, COUNTRY_FILTER,
};
use ob_handlers::auth::AuthContext;
use ob_handlers::error::Error;
use ob_handlers::geocoding::{
    autocomplete_answer, autocomplete_params, check_autocomplete, suggestion_params,
    GeocodeAutocompleteRequest,
};
use ob_handlers::ids::{address_id_of, fresh_address_id};

fn make_valid_address() -> AddressPayload {
    AddressPayload {
        label: "Home".into(),
        street: "123 Main St".into(),
        city: "Toronto".into(),
        province: "ON".into(),
        postal_code: "M5V 2T6".into(),
        country: "CA".into(),
        apartment: None,
    }
}

fn user(id: &str) -> AuthContext {
    AuthContext { authenticated: true, user_id: id.into(), roles: vec![] }
}

#[test]
fn test_country_filter_is_canada() {
    assert_eq!(COUNTRY_FILTER, "countrycode:ca");
}

#[test]
fn test_validate_postal_code_valid() {
    assert!(validate_postal_code("M5V 2T6").is_ok());
}

#[test]
fn test_validate_address_payload_valid() {
    let addr = AddressPayload {
        label: "Home".into(),
        street: "123 Main St".into(),
        city: "Toronto".into(),
        province: "ON".into(),
        postal_code: "M5V 2T6".into(),
        country: "CA".into(),
        apartment: None,
    };
    assert!(validate_address_payload(&addr).is_ok());
}

#[test]
fn test_validate_address_payload_empty_label() {
    let addr = AddressPayload {
        label: "  ".into(),
        ..make_valid_address()
    };
    assert!(validate_address_payload(&addr).is_err());
}

#[test]
fn test_validate_address_payload_empty_street() {
    let addr = AddressPayload {
        street: "".into(),
        ..make_valid_address()
    };
    assert!(validate_address_payload(&addr).is_err());
}

#[test]
fn test_validate_address_payload_empty_city() {
    let addr = AddressPayload {
        city: " ".into(),
        ..make_valid_address()
    };
    assert!(validate_address_payload(&addr).is_err());
}

#[test]
fn test_validate_address_payload_empty_province() {
    let addr = AddressPayload {
        province: "".into(),
        ..make_valid_address()
    };
    assert!(validate_address_payload(&addr).is_err());
}

#[test]
fn test_validate_address_payload_non_ca_country() {
    let addr = AddressPayload {
        country: "US".into(),
        ..make_valid_address()
    };
    let err = validate_address_payload(&addr);
    assert!(err.is_err());
    assert!(err.unwrap_err().message().contains("Canadian"));
}

#[test]
fn test_validate_address_payload_apartment_too_long() {
    let addr = AddressPayload {
        apartment: Some("A".repeat(51)),
        ..make_valid_address()
    };
    assert!(validate_address_payload(&addr).is_err());
}

#[test]
fn test_validate_address_payload_with_apartment_ok() {
    let addr = AddressPayload {
        apartment: Some("Unit 4B".into()),
        ..make_valid_address()
    };
    assert!(validate_address_payload(&addr).is_ok());
}

#[test]
fn test_validate_postal_code_wrong_length() {
    assert!(validate_postal_code("M5V").is_err());
    assert!(validate_postal_code("M5V2T6X").is_err());
}

#[test]
fn test_validate_postal_code_invalid_format_alpha_where_digit_expected() {
    assert!(validate_postal_code("MMVVTT").is_err()); // digit positions have letters
}

#[test]
fn test_validate_postal_code_invalid_format_digit_where_alpha_expected() {
    assert!(validate_postal_code("152346").is_err()); // alpha positions have digits
}

#[test]
fn test_validate_postal_code_valid_with_space() {
    assert!(validate_postal_code("K1A 0B1").is_ok());
}

#[test]
fn test_validate_postal_code_valid_lowercase() {
    assert!(validate_postal_code("k1a0b1").is_ok());
}

#[test]
fn address_errors_come_in_order() {
    let mut addr = AddressPayload {
        label: " ".into(),
        street: "".into(),
        city: "\t".into(),
        province: "".into(),
        postal_code: "M5V".into(),
        country: "fr".into(),
        apartment: Some("x".repeat(51)),
    };
    let expect = |a: &AddressPayload, m: &str| {
        assert_eq!(validate_address_payload(a), Err(Error::Validation(m.into())));
    };
    expect(&addr, "label is required");
    addr.label = "Home".into();
    expect(&addr, "street is required");
    addr.street = "1 Main".into();
    expect(&addr, "city is required");
    addr.city = "Ottawa".into();
    expect(&addr, "province is required");
    addr.province = "ON".into();
    expect(&addr, "Only Canadian addresses are currently supported");
    addr.country = "ca".into();
    expect(&addr, "Canadian postal code must be 6 characters");
    addr.postal_code = "1M5V2T".into();
    expect(&addr, "Invalid postal code format");
    addr.postal_code = "m 5 v2 t6".into();
    expect(&addr, "apartment too long");
    addr.apartment = Some("x".repeat(50));
    assert_eq!(validate_address_payload(&addr), Ok(()));
}

#[test]
fn apartment_length_counts_bytes() {
    let addr = AddressPayload { apartment: Some("é".repeat(26)), ..make_valid_address() };
    assert!(validate_address_payload(&addr).is_err());
    let addr = AddressPayload { apartment: Some("é".repeat(25)), ..make_valid_address() };
    assert!(validate_address_payload(&addr).is_ok());
}

#[test]
fn only_the_owner_changes_addresses() {
    let req = AddBuyerAddressRequest { user_id: "u1".into(), address: make_valid_address() };
    let refused = Err(Error::Auth("Unauthorized".into()));
    assert_eq!(check_add_address(&AuthContext::anonymous(), &req), refused);
    assert_eq!(check_add_address(&user("u2"), &req), refused);
    assert_eq!(check_add_address(&user("u1"), &req), Ok(()));
    let bad = AddBuyerAddressRequest {
        user_id: "u1".into(),
        address: AddressPayload { label: "".into(), ..make_valid_address() },
    };
    assert_eq!(
        check_add_address(&user("u1"), &bad),
        Err(Error::Validation("label is required".into()))
    );
}

#[test]
fn update_checks_access_then_identifier_then_address() {
    let bad_id = || Err(Error::Validation("addressId is invalid".into()));
    let req = UpdateBuyerAddressRequest {
        user_id: "u1".into(),
        address_id: "".into(),
        address: AddressPayload { label: "".into(), ..make_valid_address() },
    };
    assert_eq!(
        check_update_address(&user("u2"), &req, bad_id()),
        Err(Error::Auth("Unauthorized".into()))
    );
    assert_eq!(check_update_address(&user("u1"), &req, bad_id()), bad_id());
    assert_eq!(
        check_update_address(&user("u1"), &req, Ok(())),
        Err(Error::Validation("label is required".into()))
    );
    let good = UpdateBuyerAddressRequest { address: make_valid_address(), ..req };
    assert_eq!(check_update_address(&user("u1"), &good, Ok(())), Ok(()));
}

#[test]
fn delete_and_default_check_access_then_identifier() {
    let bad_id = || Err(Error::Validation("addressId is invalid".into()));
    let delete = DeleteBuyerAddressRequest { user_id: "u1".into(), address_id: "a".into() };
    let refused = Err(Error::Auth("Unauthorized".into()));
    assert_eq!(check_delete_address(&AuthContext::anonymous(), &delete, bad_id()), refused);
    assert_eq!(check_delete_address(&user("u2"), &delete, Ok(())), refused);
    assert_eq!(check_delete_address(&user("u1"), &delete, bad_id()), bad_id());
    assert_eq!(check_delete_address(&user("u1"), &delete, Ok(())), Ok(()));
    let default = SetDefaultBuyerAddressRequest { user_id: "u1".into(), address_id: "a".into() };
    assert_eq!(check_default_address(&user("u2"), &default, bad_id()), refused);
    assert_eq!(check_default_address(&user("u1"), &default, bad_id()), bad_id());
    assert_eq!(check_default_address(&user("u1"), &default, Ok(())), Ok(()));
}

#[test]
fn suggestions_need_a_user_and_a_query() {
    let req = |q: &str| AddressSuggestionsRequest { query: q.into(), limit: None, country: None };
    assert_eq!(
        check_suggestions(&AuthContext::anonymous(), &req("Toronto")),
        Err(Error::Auth("Must be authenticated".into()))
    );
    assert_eq!(
        check_suggestions(&user("u1"), &req("  ")),
        Err(Error::Validation("query is required".into()))
    );
    assert_eq!(check_suggestions(&user("u1"), &req("Toronto")), Ok(()));
}

#[test]
fn suggestion_parameters() {
    let owned = |v: Vec<(&'static str, String)>| -> Vec<(String, String)> {
        v.into_iter().map(|(k, x)| (k.to_string(), x)).collect()
    };
    let pair = |k: &str, v: &str| (k.to_string(), v.to_string());
    assert_eq!(
        owned(suggestion_params("King St", "key", None, &None)),
        vec![
            pair("text", "King St"),
            pair("apiKey", "key"),
            pair("limit", "5"),
            pair("filter", "countrycode:ca"),
        ]
    );
    let req = GeocodeAutocompleteRequest {
        query: "q".into(),
        country: Some("countrycode:us".into()),
        limit: Some(100),
        place_type: Some("city".into()),
    };
    assert_eq!(
        owned(autocomplete_params(&req, "k")),
        vec![
            pair("text", "q"),
            pair("apiKey", "k"),
            pair("limit", "20"),
            pair("filter", "countrycode:us"),
            pair("type", "city"),
        ]
    );
    let req = GeocodeAutocompleteRequest { place_type: Some("".into()), limit: Some(7), ..req };
    let params = autocomplete_params(&req, "k");
    assert_eq!(params.len(), 4);
    assert_eq!(params[2].1, "7");
}

#[test]
fn autocomplete_needs_a_query() {
    let req = GeocodeAutocompleteRequest {
        query: " \n".into(),
        country: None,
        limit: None,
        place_type: None,
    };
    assert_eq!(check_autocomplete(&req), Err(Error::Validation("query is required".into())));
    let req = GeocodeAutocompleteRequest { query: "x".into(), ..req };
    assert_eq!(check_autocomplete(&req), Ok(()));
}

#[test]
fn features_are_taken_from_the_answer() {
    let data: serde_json::Value =
        serde_json::from_str(r#"{"features": [{"a": 1}, {"b": 2}]}"#).unwrap();
    let features = autocomplete_answer(&data).features;
    assert_eq!(suggestions_answer(&data).features, features);
    assert_eq!(features.len(), 2);
    assert_eq!(features[1]["b"], 2);
    let none: serde_json::Value = serde_json::from_str(r#"{"features": "no"}"#).unwrap();
    assert!(suggestions_answer(&none).features.is_empty());
    assert!(autocomplete_answer(&serde_json::Value::Null).features.is_empty());
}

#[test]
fn address_identifiers() {
    let mut bytes = [0u8; 16];
    bytes[0] = 0xab;
    bytes[15] = 0x0f;
    assert_eq!(address_id_of(bytes), "addr_ab00000000000000000000000000000f");
    let fresh = fresh_address_id();
    assert_eq!(fresh.len(), 37);
    assert!(fresh.starts_with("addr_"));
    assert_ne!(fresh, fresh_address_id());
}

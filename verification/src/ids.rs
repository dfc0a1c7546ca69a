//! Fresh identifiers and their texts.
use vstd::prelude::*;

use crate::text;

verus! {

/// The small hexadecimal digit of a number below 16.
pub open spec fn hex_digit(n: int) -> char {
    if n < 10 {
        (48 + n) as u8 as char
    } else {
        (87 + n) as u8 as char
    }
}

/// The bytes in hexadecimal, two small digits each, high one first.
pub open spec fn hex_digits(bytes: Seq<u8>) -> Seq<char> {
    Seq::new(
        2 * bytes.len(),
        |i: int|
            if i % 2 == 0 {
                hex_digit(bytes[i / 2] as int / 16)
            } else {
                hex_digit(bytes[i / 2] as int % 16)
            },
    )
}

/// The sixteen bytes in groups of 8, 4, 4, 4 and 12 hexadecimal digits.
pub open spec fn hyphenated(bytes: Seq<u8>) -> Seq<char> {
    let h = hex_digits(bytes);
    h.subrange(0, 8) + seq!['-'] + h.subrange(8, 12) + seq!['-'] + h.subrange(12, 16) + seq!['-']
        + h.subrange(16, 20) + seq!['-'] + h.subrange(20, 32)
}

/// The bytes carry the version and the variant of a random identifier.
pub open spec fn is_random_id(bytes: Seq<u8>) -> bool {
    bytes.len() == 16 && bytes[6] / 16 == 4 && bytes[8] / 64 == 2
}

/// `uuid::Uuid::new_v4`: sixteen bytes, of which chance decides all but the
/// version and the variant.
#[verifier::external_body]
fn random_uuid() -> (r: [u8; 16])
    ensures
        is_random_id(r@),
{
    *uuid::Uuid::new_v4().as_bytes()
}

/// `uuid::Uuid`'s `Display`: the bytes in hexadecimal groups with hyphens.
#[verifier::external_body]
fn uuid_text(bytes: [u8; 16]) -> (r: String)
    ensures
        r@ == hyphenated(bytes@),
{
    uuid::Uuid::from_bytes(bytes).to_string()
}

/// `uuid::Uuid::simple`, as text: the bytes in hexadecimal without hyphens.
#[verifier::external_body]
fn uuid_simple_text(bytes: [u8; 16]) -> (r: String)
    ensures
        r@ == hex_digits(bytes@),
{
    uuid::Uuid::from_bytes(bytes).simple().to_string()
}

/// `hex::encode`: the bytes in hexadecimal, two small digits each.
#[verifier::external_body]
fn hex_encode(bytes: &[u8]) -> (r: String)
    ensures
        r@ == hex_digits(bytes@),
{
    hex::encode(bytes)
}

/// Sixteen random bytes.
pub fn fresh_bytes() -> (r: [u8; 16])
    ensures
        is_random_id(r@),
{
    random_uuid()
}

/// The identifier that sixteen bytes stand for.
pub fn id_of(bytes: [u8; 16]) -> (r: String)
    ensures
        r@ == hyphenated(bytes@),
{
    uuid_text(bytes)
}

/// A fresh identifier.
pub fn fresh_id() -> (r: String)
    ensures
        exists|bytes: [u8; 16]| is_random_id(bytes@) && r@ == hyphenated(#[trigger] bytes@),
{
    let bytes = random_uuid();
    id_of(bytes)
}

/// The identifier of an address.
pub fn address_id_of(bytes: [u8; 16]) -> (r: String)
    ensures
        r@ == "addr_"@ + hex_digits(bytes@),
{
    text::join2("addr_", uuid_simple_text(bytes).as_str())
}

/// A fresh identifier of an address.
pub fn fresh_address_id() -> (r: String)
    ensures
        exists|bytes: [u8; 16]|
            is_random_id(bytes@) && r@ == "addr_"@ + hex_digits(#[trigger] bytes@),
{
    let bytes = random_uuid();
    address_id_of(bytes)
}

/// The text of a download token.
pub fn token_of(bytes: [u8; 16]) -> (r: String)
    ensures
        r@ == "tok_"@ + hex_digits(bytes@),
{
    text::join2("tok_", hex_encode(&bytes).as_str())
}

} // verus!

//! JSON documents: `serde_json::Value` seen as a mathematical tree, and the
//! typed field lookups that the handlers make on it.
use vstd::prelude::*;

verus! {

/// `serde_json::Value`, a JSON document.
#[verifier::external_type_specification]
#[verifier::external_body]
pub struct ExValue(serde_json::Value);

/// A JSON document as a tree. Numbers that are written as integers keep their
/// value; the other numbers are not told apart.
pub enum Json {
    Null,
    Bool(bool),
    Int(int),
    Float,
    Str(Seq<char>),
    Array(Seq<Json>),
    Object(Map<Seq<char>, Json>),
}

/// The tree that a `serde_json::Value` holds.
pub uninterp spec fn json_of(v: serde_json::Value) -> Json;

/// The trees of a list of documents.
pub open spec fn jsons(s: Seq<serde_json::Value>) -> Seq<Json> {
    Seq::new(s.len(), |i: int| json_of(s[i]))
}

/// The member `key` of an object.
pub open spec fn member(j: Json, key: Seq<char>) -> Option<Json> {
    match j {
        Json::Object(m) => if m.dom().contains(key) {
            Some(m[key])
        } else {
            None
        },
        _ => None,
    }
}

/// The text of a JSON string.
pub open spec fn as_text(j: Json) -> Option<Seq<char>> {
    match j {
        Json::Str(s) => Some(s),
        _ => None,
    }
}

/// An integer that fits in `i64`.
pub open spec fn as_int(j: Json) -> Option<i64> {
    match j {
        Json::Int(n) => if i64::MIN <= n <= i64::MAX {
            Some(n as i64)
        } else {
            None
        },
        _ => None,
    }
}

/// An integer that fits in `u64`.
pub open spec fn as_nat(j: Json) -> Option<u64> {
    match j {
        Json::Int(n) => if 0 <= n <= u64::MAX {
            Some(n as u64)
        } else {
            None
        },
        _ => None,
    }
}

/// A JSON boolean.
pub open spec fn as_flag(j: Json) -> Option<bool> {
    match j {
        Json::Bool(b) => Some(b),
        _ => None,
    }
}

/// The items of a JSON array.
pub open spec fn as_list(j: Json) -> Option<Seq<Json>> {
    match j {
        Json::Array(s) => Some(s),
        _ => None,
    }
}

/// The text at member `key`.
pub open spec fn text_at(j: Json, key: Seq<char>) -> Option<Seq<char>> {
    match member(j, key) {
        Some(x) => as_text(x),
        None => None,
    }
}

/// The text at member `key`, or `default` where there is none.
pub open spec fn text_at_or(j: Json, key: Seq<char>, default: Seq<char>) -> Seq<char> {
    match text_at(j, key) {
        Some(s) => s,
        None => default,
    }
}

/// The text at member `key`, empty where there is none.
pub open spec fn text_or_empty(j: Json, key: Seq<char>) -> Seq<char> {
    text_at_or(j, key, Seq::empty())
}

/// The `i64` at member `key`.
pub open spec fn int_at(j: Json, key: Seq<char>) -> Option<i64> {
    match member(j, key) {
        Some(x) => as_int(x),
        None => None,
    }
}

/// The `i64` at member `key`, or `default` where there is none.
pub open spec fn int_at_or(j: Json, key: Seq<char>, default: i64) -> i64 {
    match int_at(j, key) {
        Some(n) => n,
        None => default,
    }
}

/// The `u64` at member `key`.
pub open spec fn nat_at(j: Json, key: Seq<char>) -> Option<u64> {
    match member(j, key) {
        Some(x) => as_nat(x),
        None => None,
    }
}

/// The `u64` at member `key`, or `default` where there is none.
pub open spec fn nat_at_or(j: Json, key: Seq<char>, default: u64) -> u64 {
    match nat_at(j, key) {
        Some(n) => n,
        None => default,
    }
}

/// The boolean at member `key`.
pub open spec fn flag_at(j: Json, key: Seq<char>) -> Option<bool> {
    match member(j, key) {
        Some(x) => as_flag(x),
        None => None,
    }
}

/// The boolean at member `key`, or `default` where there is none.
pub open spec fn flag_at_or(j: Json, key: Seq<char>, default: bool) -> bool {
    match flag_at(j, key) {
        Some(b) => b,
        None => default,
    }
}

/// The items at member `key`.
pub open spec fn list_at(j: Json, key: Seq<char>) -> Option<Seq<Json>> {
    match member(j, key) {
        Some(x) => as_list(x),
        None => None,
    }
}

/// The items at member `key`, none where it is not an array.
pub open spec fn items_at(j: Json, key: Seq<char>) -> Seq<Json> {
    match list_at(j, key) {
        Some(s) => s,
        None => Seq::empty(),
    }
}

/// `serde_json::Value::get` with a string: the member of that name of an
/// object, nothing for a missing member or any other document.
#[verifier::external_body]
pub(crate) fn get<'a>(v: &'a serde_json::Value, key: &str) -> (r: Option<&'a serde_json::Value>)
    ensures
        match r {
            Some(x) => member(json_of(*v), key@) == Some(json_of(*x)),
            None => member(json_of(*v), key@) is None,
        },
{
    v.get(key)
}

/// `serde_json::Value::is_null`: whether the document is `null`.
#[verifier::external_body]
pub(crate) fn is_null(v: &serde_json::Value) -> (r: bool)
    ensures
        r == (json_of(*v) is Null),
{
    v.is_null()
}

/// `serde_json::Value::as_str`: the text of a string, nothing otherwise.
#[verifier::external_body]
pub(crate) fn as_str(v: &serde_json::Value) -> (r: Option<&str>)
    ensures
        match r {
            Some(s) => as_text(json_of(*v)) == Some(s@),
            None => as_text(json_of(*v)) is None,
        },
{
    v.as_str()
}

/// `serde_json::Value::as_i64`: the value of an integer within `i64`, nothing
/// for any other number or document.
#[verifier::external_body]
pub(crate) fn as_i64(v: &serde_json::Value) -> (r: Option<i64>)
    ensures
        r == as_int(json_of(*v)),
{
    v.as_i64()
}

/// `serde_json::Value::as_u64`: the value of an integer within `u64`, nothing
/// for any other number or document.
#[verifier::external_body]
pub(crate) fn as_u64(v: &serde_json::Value) -> (r: Option<u64>)
    ensures
        r == as_nat(json_of(*v)),
{
    v.as_u64()
}

/// `serde_json::Value::as_bool`: the value of a boolean, nothing otherwise.
#[verifier::external_body]
pub(crate) fn as_bool(v: &serde_json::Value) -> (r: Option<bool>)
    ensures
        r == as_flag(json_of(*v)),
{
    v.as_bool()
}

/// `serde_json::Value::as_array`: the items of an array, nothing otherwise.
#[verifier::external_body]
pub(crate) fn as_array(v: &serde_json::Value) -> (r: Option<&Vec<serde_json::Value>>)
    ensures
        match r {
            Some(s) => as_list(json_of(*v)) == Some(jsons(s@)),
            None => as_list(json_of(*v)) is None,
        },
{
    v.as_array()
}

/// `e` lists the members of an object, each once.
pub open spec fn lists_members(e: Seq<(&String, &serde_json::Value)>, m: Map<Seq<char>, Json>) -> bool {
    &&& forall|i: int|
        0 <= i < e.len() ==> m.dom().contains((#[trigger] e[i]).0@) && m[e[i].0@] == json_of(*e[i].1)
    &&& forall|i: int, j: int|
        0 <= i < j < e.len() ==> (#[trigger] e[i]).0@ != (#[trigger] e[j]).0@
    &&& forall|k: Seq<char>|
        m.dom().contains(k) ==> exists|i: int| 0 <= i < e.len() && (#[trigger] e[i]).0@ == k
}

/// `serde_json::Value::as_object`, with the members as
/// `serde_json::Map::iter` gives them: each member of an object once, nothing
/// for any other document. Their order is left open.
#[verifier::external_body]
pub(crate) fn members(v: &serde_json::Value) -> (r: Option<Vec<(&String, &serde_json::Value)>>)
    ensures
        match r {
            Some(e) => json_of(*v) is Object && lists_members(e@, json_of(*v)->Object_0),
            None => !(json_of(*v) is Object),
        },
{
    v.as_object().map(|m| m.iter().collect())
}

/// The object with the text `value` at `key`; any other document as it is.
pub open spec fn with_text(j: Json, key: Seq<char>, value: Seq<char>) -> Json {
    match j {
        Json::Object(m) => Json::Object(m.insert(key, Json::Str(value))),
        _ => j,
    }
}

/// `serde_json::Map::insert` on the members of an object, if the document is
/// one: the member `key` becomes the text `value`.
#[verifier::external_body]
pub(crate) fn put_text(v: &mut serde_json::Value, key: &str, value: &str)
    ensures
        json_of(*final(v)) == with_text(json_of(*old(v)), key@, value@),
{
    if let Some(m) = v.as_object_mut() {
        m.insert(key.to_owned(), serde_json::Value::String(value.to_owned()));
    }
}

/// `serde_json::Map::new`: an object without members.
#[verifier::external_body]
pub(crate) fn empty_object() -> (r: serde_json::Value)
    ensures
        json_of(r) == Json::Object(Map::empty()),
{
    serde_json::Value::Object(serde_json::Map::new())
}

/// `serde_json::Value::String`: a text as a document.
#[verifier::external_body]
pub(crate) fn string(s: &str) -> (r: serde_json::Value)
    ensures
        json_of(r) == Json::Str(s@),
{
    serde_json::Value::String(s.to_owned())
}

/// `serde_json::Value`'s `Clone`: a document with the same tree.
#[verifier::external_body]
pub(crate) fn copy(v: &serde_json::Value) -> (r: serde_json::Value)
    ensures
        json_of(r) == json_of(*v),
{
    v.clone()
}

/// The text at member `key`.
pub fn text_field<'a>(v: &'a serde_json::Value, key: &str) -> (r: Option<&'a str>)
    ensures
        match r {
            Some(s) => text_at(json_of(*v), key@) == Some(s@),
            None => text_at(json_of(*v), key@) is None,
        },
{
    match get(v, key) {
        Some(x) => as_str(x),
        None => None,
    }
}

/// The text at member `key`, or `default` where there is none.
pub fn text_field_or<'a>(v: &'a serde_json::Value, key: &str, default: &'a str) -> (r: &'a str)
    ensures
        r@ == text_at_or(json_of(*v), key@, default@),
{
    match text_field(v, key) {
        Some(s) => s,
        None => default,
    }
}

/// The text at member `key`, empty where there is none.
pub fn text_field_or_empty<'a>(v: &'a serde_json::Value, key: &str) -> (r: &'a str)
    ensures
        r@ == text_or_empty(json_of(*v), key@),
{
    match text_field(v, key) {
        Some(s) => s,
        None => {
            proof {
                reveal_strlit("");
            }
            assert(""@ =~= Seq::<char>::empty());
            ""
        },
    }
}

/// The `i64` at member `key`.
pub fn int_field(v: &serde_json::Value, key: &str) -> (r: Option<i64>)
    ensures
        r == int_at(json_of(*v), key@),
{
    match get(v, key) {
        Some(x) => as_i64(x),
        None => None,
    }
}

/// The `i64` at member `key`, or `default` where there is none.
pub fn int_field_or(v: &serde_json::Value, key: &str, default: i64) -> (r: i64)
    ensures
        r == int_at_or(json_of(*v), key@, default),
{
    match int_field(v, key) {
        Some(n) => n,
        None => default,
    }
}

/// The `u64` at member `key`.
pub fn nat_field(v: &serde_json::Value, key: &str) -> (r: Option<u64>)
    ensures
        r == nat_at(json_of(*v), key@),
{
    match get(v, key) {
        Some(x) => as_u64(x),
        None => None,
    }
}

/// The `u64` at member `key`, or `default` where there is none.
pub fn nat_field_or(v: &serde_json::Value, key: &str, default: u64) -> (r: u64)
    ensures
        r == nat_at_or(json_of(*v), key@, default),
{
    match nat_field(v, key) {
        Some(n) => n,
        None => default,
    }
}

/// The boolean at member `key`.
pub fn flag_field(v: &serde_json::Value, key: &str) -> (r: Option<bool>)
    ensures
        r == flag_at(json_of(*v), key@),
{
    match get(v, key) {
        Some(x) => as_bool(x),
        None => None,
    }
}

/// The boolean at member `key`, or `default` where there is none.
pub fn flag_field_or(v: &serde_json::Value, key: &str, default: bool) -> (r: bool)
    ensures
        r == flag_at_or(json_of(*v), key@, default),
{
    match flag_field(v, key) {
        Some(b) => b,
        None => default,
    }
}

/// The items at member `key`.
pub fn list_field<'a>(v: &'a serde_json::Value, key: &str) -> (r: Option<
    &'a Vec<serde_json::Value>,
>)
    ensures
        match r {
            Some(s) => list_at(json_of(*v), key@) == Some(jsons(s@)),
            None => list_at(json_of(*v), key@) is None,
        },
{
    match get(v, key) {
        Some(x) => as_array(x),
        None => None,
    }
}

/// Copies of the items at member `key`, none where it is not an array.
pub fn list_copy(v: &serde_json::Value, key: &str) -> (r: Vec<serde_json::Value>)
    ensures
        jsons(r@) == items_at(json_of(*v), key@),
{
    let mut out: Vec<serde_json::Value> = Vec::new();
    if let Some(list) = list_field(v, key) {
        let mut i: usize = 0;
        while i < list.len()
            invariant
                i <= list@.len(),
                jsons(out@) == jsons(list@).take(i as int),
            decreases list@.len() - i,
        {
            let ghost before = jsons(out@);
            out.push(copy(&list[i]));
            i = i + 1;
            assert(jsons(out@) =~= before.push(jsons(list@)[i - 1]));
            assert(jsons(out@) =~= jsons(list@).take(i as int));
        }
        assert(jsons(list@).take(i as int) =~= jsons(list@));
    } else {
        assert(jsons(out@) =~= Seq::<Json>::empty());
    }
    out
}

/// The typed lookups read the member of that name: a text only from a string,
/// a flag only from a boolean, items only from an array, a number only from an
/// integer that fits; anything else counts as missing.
pub proof fn law_lookups_read_members(j: Json, key: Seq<char>, s: Seq<char>, n: int, b: bool)
    ensures
        member(j, key) == Some(Json::Str(s)) <==> text_at(j, key) == Some(s),
        text_at(j, key) == Some(s) ==> text_or_empty(j, key) == s,
        text_at(j, key) is None ==> text_or_empty(j, key).len() == 0,
        member(j, key) == Some(Json::Bool(b)) <==> flag_at(j, key) == Some(b),
        flag_at(j, key) is None ==> flag_at_or(j, key, b) == b,
        i64::MIN <= n <= i64::MAX ==> (member(j, key) == Some(Json::Int(n)) <==> int_at(j, key)
            == Some(n as i64)),
        0 <= n <= u64::MAX ==> (member(j, key) == Some(Json::Int(n)) <==> nat_at(j, key) == Some(
            n as u64,
        )),
        i64::MIN <= n <= i64::MAX && int_at(j, key) is None ==> int_at_or(j, key, n as i64) == n,
        int_at(j, key) matches Some(k) ==> int_at_or(j, key, 0) == k,
        member(j, key) matches Some(Json::Array(items)) ==> items_at(j, key) == items,
        !(member(j, key) matches Some(Json::Array(items))) ==> items_at(j, key).len() == 0,
        !(j is Object) ==> member(j, key) is None,
{
}

} // verus!

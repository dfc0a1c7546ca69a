//! Address completion by the geocoding service.
use vstd::prelude::*;

use crate::addresses::COUNTRY_FILTER;
use crate::error::{validation, Error, Fault};
use crate::json;
use crate::json::{json_of, jsons};
use crate::text;
use crate::text::decimal;

verus! {

/// Suggestions where a request names no number.
pub const DEFAULT_LIMIT: usize = 5;

/// The most suggestions.
pub const MAX_LIMIT: usize = 20;

#[derive(Debug)]
pub struct GeocodeAutocompleteRequest {
    pub query: String,
    pub country: Option<String>,
    pub limit: Option<usize>,
    /// The type of place, `type` in requests.
    pub place_type: Option<String>,
}

#[derive(Debug)]
pub struct GeocodeAutocompleteResponse {
    pub features: Vec<serde_json::Value>,
}

/// Checks a request for completion.
pub fn check_autocomplete(req: &GeocodeAutocompleteRequest) -> (r: Result<(), Error>)
    ensures
        match r {
            Ok(()) => !text::is_blank(req.query@),
            Err(e) => text::is_blank(req.query@) && e@ == Fault::Validation("query is required"@),
        },
{
    if text::blank(req.query.as_str()) {
        return Err(validation("query is required"));
    }
    Ok(())
}

/// The number of suggestions to ask for.
pub open spec fn limit_of(limit: Option<usize>) -> usize {
    match limit {
        None => DEFAULT_LIMIT,
        Some(n) => if n > MAX_LIMIT {
            MAX_LIMIT
        } else {
            n
        },
    }
}

/// The country filter to ask with.
pub open spec fn filter_of(country: Option<String>) -> Seq<char> {
    match country {
        Some(c) => c@,
        None => COUNTRY_FILTER@,
    }
}

/// Query parameters, by name and value.
pub open spec fn params_view(v: Seq<(&'static str, String)>) -> Seq<(Seq<char>, Seq<char>)> {
    Seq::new(v.len(), |i: int| (v[i].0@, v[i].1@))
}

/// The parameters of a query for suggestions.
pub open spec fn query_of(
    query: Seq<char>,
    api_key: Seq<char>,
    limit: Option<usize>,
    country: Option<String>,
) -> Seq<(Seq<char>, Seq<char>)> {
    seq![
        ("text"@, query),
        ("apiKey"@, api_key),
        ("limit"@, decimal(limit_of(limit) as nat)),
        ("filter"@, filter_of(country)),
    ]
}

/// The parameters of a query for suggestions.
pub fn suggestion_params(
    query: &str,
    api_key: &str,
    limit: Option<usize>,
    country: &Option<String>,
) -> (r: Vec<(&'static str, String)>)
    ensures
        params_view(r@) == query_of(query@, api_key@, limit, *country),
{
    let count: usize = match limit {
        None => DEFAULT_LIMIT,
        Some(n) => if n > MAX_LIMIT {
            MAX_LIMIT
        } else {
            n
        },
    };
    let filter = match country {
        Some(c) => c.as_str(),
        None => COUNTRY_FILTER,
    };
    let mut v: Vec<(&'static str, String)> = Vec::new();
    v.push(("text", query.to_owned()));
    v.push(("apiKey", api_key.to_owned()));
    v.push(("limit", text::decimal_text(count as u128)));
    v.push(("filter", filter.to_owned()));
    assert(params_view(v@) =~= query_of(query@, api_key@, limit, *country));
    v
}

/// The type of place that a request asks for, empty for any.
pub open spec fn place_of(place_type: Option<String>) -> Seq<char> {
    match place_type {
        Some(s) => s@,
        None => Seq::empty(),
    }
}

/// The parameters of a query for completion: those for suggestions, and the
/// type of place where one is asked for.
pub fn autocomplete_params(req: &GeocodeAutocompleteRequest, api_key: &str) -> (r: Vec<
    (&'static str, String),
>)
    ensures
        ({
            let base = query_of(req.query@, api_key@, req.limit, req.country);
            params_view(r@) == if place_of(req.place_type).len() == 0 {
                base
            } else {
                base.push(("type"@, place_of(req.place_type)))
            }
        }),
{
    let mut v = suggestion_params(req.query.as_str(), api_key, req.limit, &req.country);
    if let Some(t) = &req.place_type {
        if !t.as_str().is_empty() {
            let ghost before = params_view(v@);
            v.push(("type", t.clone()));
            assert(params_view(v@) =~= before.push(("type"@, t@)));
        }
    }
    v
}

/// The answer to a request for completion, from that of the service.
pub fn autocomplete_answer(data: &serde_json::Value) -> (r: GeocodeAutocompleteResponse)
    ensures
        jsons(r.features@) == json::items_at(json_of(*data), "features"@),
{
    GeocodeAutocompleteResponse { features: json::list_copy(data, "features") }
}

/// No more than 20 suggestions are asked for, five where the request does not
/// say, and as many as it says otherwise. The query carries the text, the key,
/// the number and the country filter.
pub proof fn law_query_carries_the_request(
    query: Seq<char>,
    api_key: Seq<char>,
    limit: Option<usize>,
    country: Option<String>,
)
    ensures
        limit is None ==> limit_of(limit) == 5,
        limit matches Some(n) ==> limit_of(limit) == if n <= 20 {
            n
        } else {
            20
        },
        ({
            let q = query_of(query, api_key, limit, country);
            &&& q.contains(("text"@, query))
            &&& q.contains(("apiKey"@, api_key))
            &&& q.contains(("limit"@, decimal(limit_of(limit) as nat)))
            &&& country matches Some(c) ==> q.contains(("filter"@, c@))
            &&& country is None ==> q.contains(("filter"@, COUNTRY_FILTER@))
            &&& q.len() == 4
        }),
{
    let q = query_of(query, api_key, limit, country);
    assert(q[0] == ("text"@, query));
    assert(q[1] == ("apiKey"@, api_key));
    assert(q[2] == ("limit"@, decimal(limit_of(limit) as nat)));
    assert(q[3] == ("filter"@, filter_of(country)));
}

} // verus!

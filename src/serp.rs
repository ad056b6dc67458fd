//! The location search offered to the model as a tool.
use vstd::prelude::*;
use crate::chat::or_null;
use crate::json::{field_of, json_field};

verus! {

/// The JSON schema under which the location search is offered to the model.
pub const SEARCH_LOCATION_SCHEMA: &'static str = "{\"description\":\"検索内容に応じた飲食店のリストを返します。\",\"name\":\"search_location\",\"parameters\":{\"properties\":{\"q\":{\"type\":\"string\"}},\"required\":[\"q\"],\"type\":\"object\"}}";

/// The JSON schema of the location search tool.
pub fn search_location_schema() -> (r: String)
    ensures
        r@ == SEARCH_LOCATION_SCHEMA@,
{
    String::from_str(SEARCH_LOCATION_SCHEMA)
}

/// The parameters of a local search for `query`, in Japanese, in Japan.
pub open spec fn search_params_spec(query: Seq<char>) -> Seq<(Seq<char>, Seq<char>)> {
    seq![
        ("engine"@, "google_local"@),
        ("GL"@, "jp"@),
        ("hl"@, "ja"@),
        ("q"@, query),
    ]
}

/// The parameters of a local search for `query`, in Japanese, in Japan.
pub fn search_params(query: String) -> (r: Vec<(String, String)>)
    ensures
        r@.map_values(|p: (String, String)| (p.0@, p.1@)) == search_params_spec(query@),
{
    let ghost q = query@;
    let r = vec![
        (String::from_str("engine"), String::from_str("google_local")),
        (String::from_str("GL"), String::from_str("jp")),
        (String::from_str("hl"), String::from_str("ja")),
        (String::from_str("q"), query),
    ];
    assert(r@.map_values(|p: (String, String)| (p.0@, p.1@)) =~= search_params_spec(q));
    r
}

/// The places in a search answer `body`: its `local_results` member, or
/// `null` when it has none.
pub fn local_results(body: &str) -> (r: String)
    ensures
        r@ == or_null(field_of(body@, "local_results"@)),
{
    match json_field(body, "local_results") {
        Some(found) => found,
        None => String::from_str("null"),
    }
}

} // verus!

//! Which outside tool a function call names, and what it is asked.
use vstd::prelude::*;
use crate::chat::{str_or_empty, string_or_empty};
use crate::json::{field_of, json_field};

verus! {

/// The name under which the location search is offered to the model.
pub const SEARCH_LOCATION: &'static str = "search_location";

/// What is added to each search query to ask for places around it.
pub const NEARBY_SUFFIX: &'static str = " 周辺";

/// The result of a call whose tool is unknown: JSON `null`.
pub const NULL_RESULT: &'static str = "null";

/// A call of a known tool, ready for its transport.
#[derive(Clone, Debug)]
pub enum ToolRequest {
    /// Search for places matching `query`.
    SearchLocation { query: String },
}

/// The mathematical form of a [`ToolRequest`].
pub ghost enum ToolRequestView {
    SearchLocation { query: Seq<char> },
}

impl View for ToolRequest {
    type V = ToolRequestView;

    open spec fn view(&self) -> ToolRequestView {
        match self {
            ToolRequest::SearchLocation { query } => ToolRequestView::SearchLocation { query: query@ },
        }
    }
}

/// The request made for a call of `name` with the JSON arguments `args`:
/// `None` for a tool that is not known.
pub open spec fn dispatch_spec(name: Seq<char>, args: Seq<char>) -> Option<ToolRequestView> {
    if name == SEARCH_LOCATION@ {
        Some(
            ToolRequestView::SearchLocation {
                query: str_or_empty(field_of(args, "q"@)) + NEARBY_SUFFIX@,
            },
        )
    } else {
        None
    }
}

/// Maps a called tool's name and JSON arguments to the request for its
/// transport; an unknown name gives `None`, which is no failure: its result
/// is [`NULL_RESULT`].
pub fn dispatch(name: &String, args: &String) -> (r: Option<ToolRequest>)
    ensures
        r.is_some() == dispatch_spec(name@, args@).is_some(),
        r.is_some() ==> r.unwrap()@ == dispatch_spec(name@, args@).unwrap(),
{
    let known = String::from_str(SEARCH_LOCATION);
    if *name == known {
        Some(search_request(string_or_empty(json_field(args.as_str(), "q"))))
    } else {
        None
    }
}

/// The location search asked for with the query argument `q`: places
/// around what `q` names.
pub fn search_request(q: String) -> (r: ToolRequest)
    ensures
        r@ == (ToolRequestView::SearchLocation { query: q@ + NEARBY_SUFFIX@ }),
{
    let mut query = q;
    query.append(NEARBY_SUFFIX);
    ToolRequest::SearchLocation { query }
}

} // verus!

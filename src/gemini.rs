//! The JSON exchanged with the model's endpoint: the request body, the
//! endpoint's address, and the reading of its answer.
use vstd::prelude::*;
use crate::chat::{join, join_texts, part_of_json, turn_json, turns_view, ChatContent, Part, PartView, Role, Turn};
use crate::json::{element_of, elements_of, field_of, json_element, json_elements, json_field};
use crate::orchestrator::ChatError;

verus! {

/// The JSON text of the request that sends `contents` to the model and,
/// when there are any, offers it the tools whose schemas are `functions`.
pub open spec fn request_json(contents: Seq<Turn>, functions: Seq<Seq<char>>) -> Seq<char> {
    let turns = "{\"contents\":["@ + join(contents.map_values(|t| turn_json(t))) + "]"@;
    if functions.len() == 0 {
        turns + "}"@
    } else {
        turns + ",\"tools\":[{\"functionDeclarations\":["@ + join(functions) + "]}]}"@
    }
}

/// The request body that sends `contents` to the model, offering it the
/// tools whose JSON schemas are `functions`.
pub fn request_body(contents: &Vec<ChatContent>, functions: &Vec<String>) -> (r: String)
    ensures
        r@ == request_json(turns_view(contents@), functions@.map_values(|f: String| f@)),
{
    let mut texts: Vec<String> = Vec::new();
    let mut i: usize = 0;
    while i < contents.len()
        invariant
            i <= contents.len(),
            texts@.len() == i,
            forall|j: int| 0 <= j < i ==> (#[trigger] texts@[j])@ == turn_json(contents@[j]@),
        decreases contents.len() - i,
    {
        texts.push(contents[i].to_json());
        i = i + 1;
    }
    assert(texts@.map_values(|s: String| s@) =~= turns_view(contents@).map_values(|t| turn_json(t)));
    let mut r = String::from_str("{\"contents\":[");
    let joined = join_texts(&texts);
    r.append(joined.as_str());
    r.append("]");
    if functions.len() > 0 {
        r.append(",\"tools\":[{\"functionDeclarations\":[");
        let declared = join_texts(functions);
        r.append(declared.as_str());
        r.append("]}]}");
    } else {
        r.append("}");
    }
    r
}

/// The address of the model's endpoint for a project and a region.
pub open spec fn endpoint_spec(project_id: Seq<char>, region: Seq<char>) -> Seq<char> {
    "https://"@ + region + "-aiplatform.googleapis.com/v1/projects/"@ + project_id + "/locations/"@
        + region + "/publishers/google/models/gemini-pro:generateContent"@
}

/// The address of the model's endpoint for a project and a region.
pub fn llm_endpoint(project_id: &str, region: &str) -> (r: String)
    ensures
        r@ == endpoint_spec(project_id@, region@),
{
    let mut r = String::from_str("https://");
    r.append(region);
    r.append("-aiplatform.googleapis.com/v1/projects/");
    r.append(project_id);
    r.append("/locations/");
    r.append(region);
    r.append("/publishers/google/models/gemini-pro:generateContent");
    r
}

/// The value of the `Authorization` header that carries `token`.
pub fn bearer(token: &str) -> (r: String)
    ensures
        r@ == "Bearer "@ + token@,
{
    let mut r = String::from_str("Bearer ");
    r.append(token);
    r
}

/// The JSON texts of the parts of the first candidate's content in the
/// endpoint's answer `body`; none when the answer has no such array.
pub open spec fn reply_part_texts(body: Seq<char>) -> Seq<Seq<char>> {
    let parts = match field_of(body, "candidates"@) {
        Some(c) => match element_of(c, 0) {
            Some(first) => match field_of(first, "content"@) {
                Some(content) => match field_of(content, "parts"@) {
                    Some(p) => elements_of(p),
                    None => None,
                },
                None => None,
            },
            None => None,
        },
        None => None,
    };
    match parts {
        Some(items) => items,
        None => Seq::empty(),
    }
}

/// The parts of the model's reply in the endpoint's answer `body`.
pub open spec fn reply_parts_spec(body: Seq<char>) -> Seq<PartView> {
    reply_part_texts(body).map_values(|t| part_of_json(t))
}

fn part_texts(body: &str) -> (r: Vec<String>)
    ensures
        r@.map_values(|s: String| s@) == reply_part_texts(body@),
{
    let parts = match json_field(body, "candidates") {
        Some(c) => match json_element(c.as_str(), 0) {
            Some(first) => match json_field(first.as_str(), "content") {
                Some(content) => match json_field(content.as_str(), "parts") {
                    Some(p) => json_elements(p.as_str()),
                    None => None,
                },
                None => None,
            },
            None => None,
        },
        None => None,
    };
    match parts {
        Some(items) => items,
        None => {
            let r: Vec<String> = Vec::new();
            assert(r@.map_values(|s: String| s@) =~= Seq::<Seq<char>>::empty());
            r
        },
    }
}

/// The parts of the model's reply in the endpoint's answer `body`.
pub fn reply_parts(body: &str) -> (r: Vec<Part>)
    ensures
        r@.map_values(|p: Part| p@) == reply_parts_spec(body@),
{
    let texts = part_texts(body);
    let ghost tv = texts@.map_values(|s: String| s@);
    let mut r: Vec<Part> = Vec::new();
    let mut i: usize = 0;
    while i < texts.len()
        invariant
            i <= texts.len(),
            tv == texts@.map_values(|s: String| s@),
            r@.len() == i,
            forall|j: int| 0 <= j < i ==> (#[trigger] r@[j])@ == part_of_json(tv[j]),
        decreases texts.len() - i,
    {
        r.push(Part::from_json(texts[i].as_str()));
        i = i + 1;
    }
    assert(r@.map_values(|p: Part| p@) =~= reply_parts_spec(body@));
    r
}

/// Reads the endpoint's answer: on status 200 the model's reply turn, on
/// any other status a transport error that carries the body.
pub fn read_response(status: u16, body: String) -> (r: Result<ChatContent, ChatError>)
    ensures
        status == 200 ==> r is Ok && r->Ok_0@ == (Turn { role: Role::MODEL, parts: reply_parts_spec(body@) }),
        status != 200 ==> r is Err && r->Err_0 == (ChatError::Transport { status, body }),
{
    if status == 200 {
        let parts = reply_parts(body.as_str());
        Ok(ChatContent { role: Role::MODEL, parts })
    } else {
        Err(ChatError::Transport { status, body })
    }
}

} // verus!

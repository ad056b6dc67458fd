//! Turns of a conversation, their parts, and their JSON form.
use vstd::prelude::*;
use crate::json::{as_str_of, field_of, json_as_str, json_field, json_quote, quoted};

verus! {

/// The author of a turn.
#[allow(clippy::upper_case_acronyms)]
#[derive(Clone, Copy, Debug, PartialEq, Eq, Structural)]
pub enum Role {
    USER,
    MODEL,
}

/// The name under which a role is written on the wire.
pub open spec fn role_name(r: Role) -> Seq<char> {
    match r {
        Role::USER => "USER"@,
        Role::MODEL => "MODEL"@,
    }
}

impl Role {
    /// The name under which this role is written on the wire.
    pub fn name(&self) -> (r: &'static str)
        ensures
            r@ == role_name(*self),
    {
        match self {
            Role::USER => "USER",
            Role::MODEL => "MODEL",
        }
    }
}

/// One payload of a turn. Argument and result payloads are JSON text.
#[derive(Clone, Debug)]
pub enum Part {
    /// Text meant for display.
    Text(String),
    /// A request of the model to run the tool `name` on the JSON object `args`.
    FunctionCall { name: String, args: String },
    /// What the tool `name` returned, as JSON text (`null` when nothing ran).
    FunctionResponse { name: String, result: String },
    /// A part of a reply that is neither text nor a function call, kept as
    /// the JSON text it came in.
    Other(String),
}

/// The mathematical form of a [`Part`].
pub ghost enum PartView {
    Text(Seq<char>),
    FunctionCall { name: Seq<char>, args: Seq<char> },
    FunctionResponse { name: Seq<char>, result: Seq<char> },
    Other(Seq<char>),
}

impl View for Part {
    type V = PartView;

    open spec fn view(&self) -> PartView {
        match self {
            Part::Text(t) => PartView::Text(t@),
            Part::FunctionCall { name, args } => PartView::FunctionCall { name: name@, args: args@ },
            Part::FunctionResponse { name, result } => PartView::FunctionResponse {
                name: name@,
                result: result@,
            },
            Part::Other(raw) => PartView::Other(raw@),
        }
    }
}

/// One authored unit of the conversation.
#[derive(Clone, Debug)]
pub struct ChatContent {
    pub role: Role,
    pub parts: Vec<Part>,
}

/// The mathematical form of a [`ChatContent`].
pub ghost struct Turn {
    pub role: Role,
    pub parts: Seq<PartView>,
}

impl View for ChatContent {
    type V = Turn;

    open spec fn view(&self) -> Turn {
        Turn { role: self.role, parts: self.parts@.map_values(|p: Part| p@) }
    }
}

/// The views of a sequence of turns.
pub open spec fn turns_view(cs: Seq<ChatContent>) -> Seq<Turn> {
    cs.map_values(|c: ChatContent| c@)
}

/// Every turn has at least one part.
pub open spec fn all_nonempty(turns: Seq<Turn>) -> bool {
    forall|i: int| 0 <= i < turns.len() ==> (#[trigger] turns[i]).parts.len() > 0
}

/// The JSON text in which a part is sent to the model.
pub open spec fn part_json(p: PartView) -> Seq<char> {
    match p {
        PartView::Text(t) => "{\"text\":"@ + quoted(t) + "}"@,
        PartView::FunctionCall { name, args } => "{\"functionCall\":{\"name\":"@ + quoted(name)
            + ",\"args\":"@ + args + "}}"@,
        PartView::FunctionResponse { name, result } => "{\"functionResponse\":{\"name\":"@
            + quoted(name) + ",\"response\":{\"name\":"@ + quoted(name) + ",\"content\":"@ + result
            + "}}}"@,
        PartView::Other(raw) => raw,
    }
}

/// The items joined by commas.
pub open spec fn join(items: Seq<Seq<char>>) -> Seq<char>
    decreases items.len(),
{
    if items.len() == 0 {
        Seq::empty()
    } else if items.len() == 1 {
        items[0]
    } else {
        join(items.drop_last()) + ","@ + items.last()
    }
}

/// The JSON text in which a turn is sent to the model.
pub open spec fn turn_json(t: Turn) -> Seq<char> {
    "{\"role\":\""@ + role_name(t.role) + "\",\"parts\":["@ + join(t.parts.map_values(|p| part_json(p)))
        + "]}"@
}

/// The string that the JSON `text` holds, or the empty string.
pub open spec fn str_or_empty(text: Option<Seq<char>>) -> Seq<char> {
    match text {
        Some(t) => match as_str_of(t) {
            Some(s) => s,
            None => Seq::empty(),
        },
        None => Seq::empty(),
    }
}

/// The member's JSON text, or `null` when there is none.
pub open spec fn or_null(text: Option<Seq<char>>) -> Seq<char> {
    match text {
        Some(t) => t,
        None => "null"@,
    }
}

/// How a part of a model reply, given as JSON text, is read: a `text` member
/// makes a text part, else a `functionCall` member makes a function call.
pub open spec fn part_of_json(text: Seq<char>) -> PartView {
    match field_of(text, "text"@) {
        Some(t) => PartView::Text(str_or_empty(Some(t))),
        None => match field_of(text, "functionCall"@) {
            Some(call) => PartView::FunctionCall {
                name: str_or_empty(field_of(call, "name"@)),
                args: or_null(field_of(call, "args"@)),
            },
            None => PartView::Other(text),
        },
    }
}

/// The string held by the JSON text `text`, or the empty string.
pub fn string_or_empty(text: Option<String>) -> (r: String)
    ensures
        r@ == str_or_empty(match text {
            Some(t) => Some(t@),
            None => None,
        }),
{
    match text {
        Some(t) => match json_as_str(t.as_str()) {
            Some(s) => s,
            None => String::new(),
        },
        None => String::new(),
    }
}

fn text_or_null(text: Option<String>) -> (r: String)
    ensures
        r@ == or_null(match text {
            Some(t) => Some(t@),
            None => None,
        }),
{
    match text {
        Some(t) => t,
        None => String::from_str("null"),
    }
}

impl Part {
    /// A copy of this part.
    pub fn copy(&self) -> (r: Part)
        ensures
            r@ == self@,
    {
        match self {
            Part::Text(t) => Part::Text(t.clone()),
            Part::FunctionCall { name, args } => Part::FunctionCall {
                name: name.clone(),
                args: args.clone(),
            },
            Part::FunctionResponse { name, result } => Part::FunctionResponse {
                name: name.clone(),
                result: result.clone(),
            },
            Part::Other(raw) => Part::Other(raw.clone()),
        }
    }

    /// Reads one part of a model reply from its JSON text.
    pub fn from_json(text: &str) -> (r: Part)
        ensures
            r@ == part_of_json(text@),
    {
        let text_member = match json_field(text, "text") {
            Some(t) => Some(string_or_empty(Some(t))),
            None => None,
        };
        let call_member = match json_field(text, "functionCall") {
            Some(call) => {
                let name = string_or_empty(json_field(call.as_str(), "name"));
                let args = text_or_null(json_field(call.as_str(), "args"));
                Some((name, args))
            },
            None => None,
        };
        Part::classify(text.to_string(), text_member, call_member)
    }

    /// The part that a reply part with the JSON text `raw` makes, given the
    /// string of its `text` member, if it has one, and the name and JSON
    /// arguments of its `functionCall` member, if it has one.
    pub fn classify(raw: String, text: Option<String>, call: Option<(String, String)>) -> (r: Part)
        ensures
            r@ == match text {
                Some(t) => PartView::Text(t@),
                None => match call {
                    Some((name, args)) => PartView::FunctionCall { name: name@, args: args@ },
                    None => PartView::Other(raw@),
                },
            },
    {
        match text {
            Some(t) => Part::Text(t),
            None => match call {
                Some((name, args)) => Part::FunctionCall { name, args },
                None => Part::Other(raw),
            },
        }
    }

    /// The JSON text in which this part is sent to the model.
    pub fn to_json(&self) -> (r: String)
        ensures
            r@ == part_json(self@),
    {
        match self {
            Part::Text(t) => {
                let mut r = String::from_str("{\"text\":");
                let q = json_quote(t.as_str());
                r.append(q.as_str());
                r.append("}");
                r
            },
            Part::FunctionCall { name, args } => {
                let mut r = String::from_str("{\"functionCall\":{\"name\":");
                let q = json_quote(name.as_str());
                r.append(q.as_str());
                r.append(",\"args\":");
                r.append(args.as_str());
                r.append("}}");
                r
            },
            Part::FunctionResponse { name, result } => {
                let mut r = String::from_str("{\"functionResponse\":{\"name\":");
                let q = json_quote(name.as_str());
                r.append(q.as_str());
                r.append(",\"response\":{\"name\":");
                r.append(q.as_str());
                r.append(",\"content\":");
                r.append(result.as_str());
                r.append("}}}");
                r
            },
            Part::Other(raw) => raw.clone(),
        }
    }
}

/// The texts joined by commas.
pub fn join_texts(items: &Vec<String>) -> (r: String)
    ensures
        r@ == join(items@.map_values(|s: String| s@)),
{
    let ghost v = items@.map_values(|s: String| s@);
    let mut r = String::new();
    let mut i: usize = 0;
    while i < items.len()
        invariant
            i <= items.len(),
            v == items@.map_values(|s: String| s@),
            r@ == join(v.take(i as int)),
        decreases items.len() - i,
    {
        assert(v.take(i + 1).drop_last() =~= v.take(i as int));
        if i > 0 {
            r.append(",");
        }
        r.append(items[i].as_str());
        i = i + 1;
    }
    assert(v.take(items.len() as int) =~= v);
    r
}

impl ChatContent {
    /// A copy of this turn.
    pub fn copy(&self) -> (r: ChatContent)
        ensures
            r@ == self@,
    {
        let mut parts: Vec<Part> = Vec::new();
        let mut i: usize = 0;
        while i < self.parts.len()
            invariant
                i <= self.parts.len(),
                parts@.len() == i,
                forall|j: int| 0 <= j < i ==> (#[trigger] parts@[j])@ == self.parts@[j]@,
            decreases self.parts.len() - i,
        {
            parts.push(self.parts[i].copy());
            i = i + 1;
        }
        assert(parts@.map_values(|p: Part| p@) =~= self.parts@.map_values(|p: Part| p@));
        ChatContent { role: self.role, parts }
    }

    /// The JSON text in which this turn is sent to the model.
    pub fn to_json(&self) -> (r: String)
        ensures
            r@ == turn_json(self@),
    {
        let mut texts: Vec<String> = Vec::new();
        let mut i: usize = 0;
        while i < self.parts.len()
            invariant
                i <= self.parts.len(),
                texts@.len() == i,
                forall|j: int| 0 <= j < i ==> (#[trigger] texts@[j])@ == part_json(self.parts@[j]@),
            decreases self.parts.len() - i,
        {
            texts.push(self.parts[i].to_json());
            i = i + 1;
        }
        assert(texts@.map_values(|s: String| s@) =~= self@.parts.map_values(|p| part_json(p)));
        assert(self@.parts.map_values(|p| part_json(p)) =~= self.parts@.map_values(|p: Part| part_json(p@)));
        let mut r = String::from_str("{\"role\":\"");
        r.append(self.role.name());
        r.append("\",\"parts\":[");
        let joined = join_texts(&texts);
        r.append(joined.as_str());
        r.append("]}");
        r
    }
}

/// A copy of each turn.
pub fn copy_turns(cs: &Vec<ChatContent>) -> (r: Vec<ChatContent>)
    ensures
        turns_view(r@) == turns_view(cs@),
{
    let mut r: Vec<ChatContent> = Vec::new();
    let mut i: usize = 0;
    while i < cs.len()
        invariant
            i <= cs.len(),
            r@.len() == i,
            forall|j: int| 0 <= j < i ==> (#[trigger] r@[j])@ == cs@[j]@,
        decreases cs.len() - i,
    {
        r.push(cs[i].copy());
        i = i + 1;
    }
    assert(turns_view(r@) =~= turns_view(cs@));
    r
}

} // verus!

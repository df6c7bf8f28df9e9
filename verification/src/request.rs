//! The request envelope and its canonical JSON text.
//!
//! The text written here is the one that is signed and the one that is sent:
//! the members of each object appear in a fixed order, without white space.

use vstd::prelude::*;
use vstd::string::*;
use crate::json::Json;
use crate::types::{message_views, ChatMessage, ChatMessageView, Model};

verus! {

/// The JSON string literal for `text`: the text between double quotes, with
/// the characters that JSON reserves escaped.
pub uninterp spec fn json_string(text: Seq<char>) -> Seq<char>;

/// Calls `serde_json::to_string` on a string slice. Trusted: the result is
/// the literal named by `json_string`. The serializer writes a string into a
/// buffer in memory, which has no failure path, so the empty text of the
/// error arm is never returned.
#[verifier::external_body]
fn json_quote(s: &str) -> (r: String)
    ensures
        r@ == json_string(s@),
{
    match serde_json::to_string(s) {
        Ok(quoted) => quoted,
        Err(_) => String::new(),
    }
}

/// The views of a sequence of strings, in the same order.
pub open spec fn texts(parts: Seq<String>) -> Seq<Seq<char>> {
    Seq::new(parts.len(), |i: int| parts[i]@)
}

/// The parts one after the other, with a comma between each two.
pub open spec fn join_comma(parts: Seq<Seq<char>>) -> Seq<char>
    decreases parts.len(),
{
    if parts.len() == 0 {
        Seq::empty()
    } else if parts.len() == 1 {
        parts[0]
    } else {
        join_comma(parts.drop_last()) + ","@ + parts.last()
    }
}

/// Joins the parts with commas.
pub fn join_with_commas(parts: &Vec<String>) -> (r: String)
    ensures
        r@ == join_comma(texts(parts@)),
{
    let mut out = String::new();
    let mut i: usize = 0;
    while i < parts.len()
        invariant
            i <= parts.len(),
            out@ == join_comma(texts(parts@).take(i as int)),
        decreases parts.len() - i,
    {
        let ghost before = texts(parts@).take(i as int);
        let ghost after = texts(parts@).take(i + 1);
        proof {
            assert(after.drop_last() =~= before);
            assert(after.last() == parts@[i as int]@);
        }
        if i > 0 {
            out.append(",");
        }
        out.append(parts[i].as_str());
        proof {
            if i == 0 {
                assert(out@ =~= parts@[0]@);
            }
        }
        i = i + 1;
    }
    proof {
        assert(texts(parts@).take(parts.len() as int) =~= texts(parts@));
    }
    out
}

/// The additional parameters of a request: a mapping from names to values,
/// which a fresh request leaves empty.
#[derive(Debug, Clone)]
pub struct Parameters {
    entries: Vec<(String, String)>,
}

impl Parameters {
    /// The names and values held, in the order in which they are written.
    pub closed spec fn pairs(&self) -> Seq<(Seq<char>, Seq<char>)> {
        Seq::new(self.entries@.len(), |i: int| (self.entries@[i].0@, self.entries@[i].1@))
    }

    /// The empty mapping.
    pub fn new() -> (r: Parameters)
        ensures
            r.pairs() == Seq::<(Seq<char>, Seq<char>)>::empty(),
    {
        let r = Parameters { entries: Vec::new() };
        assert(r.pairs() =~= Seq::<(Seq<char>, Seq<char>)>::empty());
        r
    }

    /// The document of the mapping: an object with one string member for
    /// each pair, in order.
    pub fn document(&self) -> (r: Json)
        ensures
            match r {
                Json::Object(members) => {
                    &&& members@.len() == self.pairs().len()
                    &&& forall|i: int|
                        0 <= i < members@.len() ==> {
                            &&& (#[trigger] members@[i]).0@ == self.pairs()[i].0
                            &&& text_of_member(members@[i].1) == Some(self.pairs()[i].1)
                        }
                },
                _ => false,
            },
    {
        let mut members: Vec<(String, Json)> = Vec::new();
        let mut i: usize = 0;
        while i < self.entries.len()
            invariant
                i <= self.entries.len(),
                members@.len() == i,
                forall|j: int|
                    0 <= j < i ==> {
                        &&& (#[trigger] members@[j]).0@ == self.pairs()[j].0
                        &&& text_of_member(members@[j].1) == Some(self.pairs()[j].1)
                    },
            decreases self.entries.len() - i,
        {
            members.push((self.entries[i].0.clone(), Json::Str(self.entries[i].1.clone())));
            i = i + 1;
        }
        Json::Object(members)
    }

    /// The JSON text of the mapping.
    fn encode(&self) -> (r: String)
        ensures
            r@ == encode_parameters(self.pairs()),
    {
        let mut parts: Vec<String> = Vec::new();
        let mut i: usize = 0;
        while i < self.entries.len()
            invariant
                i <= self.entries.len(),
                parts@.len() == i,
                forall|j: int| 0 <= j < i ==> (#[trigger] parts@[j])@ == encode_member(self.pairs()[j]),
            decreases self.entries.len() - i,
        {
            let mut part = json_quote(self.entries[i].0.as_str());
            part.append(":");
            let value = json_quote(self.entries[i].1.as_str());
            part.append(value.as_str());
            parts.push(part);
            i = i + 1;
        }
        assert(texts(parts@) =~= encoded_members(self.pairs()));
        let mut out = String::from_str("{");
        let inner = join_with_commas(&parts);
        out.append(inner.as_str());
        out.append("}");
        out
    }
}

/// The text of a document that is a string.
pub open spec fn text_of_member(json: Json) -> Option<Seq<char>> {
    match json {
        Json::Str(s) => Some(s@),
        _ => None,
    }
}

/// The JSON text of one member of the parameters: the name, a colon, the
/// value, both as string literals.
pub open spec fn encode_member(p: (Seq<char>, Seq<char>)) -> Seq<char> {
    json_string(p.0) + ":"@ + json_string(p.1)
}

/// The JSON text of the parameters: an object with one member for each pair.
pub open spec fn encode_parameters(pairs: Seq<(Seq<char>, Seq<char>)>) -> Seq<char> {
    "{"@ + join_comma(encoded_members(pairs)) + "}"@
}

/// The JSON texts of the members of the parameters, in the same order.
pub open spec fn encoded_members(pairs: Seq<(Seq<char>, Seq<char>)>) -> Seq<Seq<char>> {
    Seq::new(pairs.len(), |i: int| encode_member(pairs[i]))
}

/// The JSON texts of the messages, in the same order.
pub open spec fn encoded_messages(messages: Seq<ChatMessageView>) -> Seq<Seq<char>> {
    Seq::new(messages.len(), |i: int| encode_message(messages[i]))
}

/// The JSON text of one message: `role`, then `content`, then `finish_reason`
/// where there is one.
pub open spec fn encode_message(m: ChatMessageView) -> Seq<char> {
    "{\"role\":"@ + json_string(m.role) + ",\"content\":"@ + json_string(m.content) + (
    match m.finish_reason {
        Some(reason) => ",\"finish_reason\":"@ + json_string(reason),
        None => Seq::empty(),
    }) + "}"@
}

/// The JSON text of a request: `model`, then `messages`, then `parameters`.
pub open spec fn encode_request(
    model: Model,
    messages: Seq<ChatMessageView>,
    parameters: Seq<(Seq<char>, Seq<char>)>,
) -> Seq<char> {
    "{\"model\":"@ + json_string(model.wire_name_text()) + ",\"messages\":["@ + join_comma(
        encoded_messages(messages),
    ) + "],\"parameters\":"@ + encode_parameters(parameters) + "}"@
}

/// Writes one message as JSON text.
pub fn serialize_message(m: &ChatMessage) -> (r: String)
    ensures
        r@ == encode_message(m@),
{
    let mut out = String::from_str("{\"role\":");
    let role = json_quote(m.role.as_str());
    out.append(role.as_str());
    out.append(",\"content\":");
    let content = json_quote(m.content.as_str());
    out.append(content.as_str());
    match &m.finish_reason {
        Some(reason) => {
            out.append(",\"finish_reason\":");
            let quoted = json_quote(reason.as_str());
            out.append(quoted.as_str());
        },
        None => {
            assert(out@ + Seq::<char>::empty() =~= out@);
        },
    }
    out.append("}");
    out
}

/// The request envelope: what is asked of which model.
#[derive(Debug, Clone)]
pub struct BaichuanReq {
    pub model: Model,
    pub messages: Vec<ChatMessage>,
    pub parameters: Parameters,
}

impl BaichuanReq {
    /// The canonical JSON text of this request.
    pub open spec fn encoding(&self) -> Seq<char> {
        encode_request(self.model, message_views(self.messages@), self.parameters.pairs())
    }
}

/// The views of the user messages made from `texts`, in the same order.
pub open spec fn user_messages(contents: Seq<String>) -> Seq<ChatMessageView> {
    Seq::new(
        contents.len(),
        |i: int|
            ChatMessageView { role: "user"@, content: contents[i]@, finish_reason: None },
    )
}

/// Builds the request for `model` that holds each of `messages` as a user
/// message, in the order given, with empty parameters.
pub fn build_request(model: Model, messages: Vec<String>) -> (r: BaichuanReq)
    ensures
        r.model == model,
        message_views(r.messages@) == user_messages(messages@),
        r.parameters.pairs() == Seq::<(Seq<char>, Seq<char>)>::empty(),
{
    let mut wrapped: Vec<ChatMessage> = Vec::new();
    let mut i: usize = 0;
    while i < messages.len()
        invariant
            i <= messages.len(),
            wrapped@.len() == i,
            forall|j: int| 0 <= j < i ==> (#[trigger] wrapped@[j])@ == user_messages(messages@)[j],
        decreases messages.len() - i,
    {
        wrapped.push(ChatMessage::user(messages[i].clone()));
        i = i + 1;
    }
    assert(message_views(wrapped@) =~= user_messages(messages@));
    BaichuanReq { model, messages: wrapped, parameters: Parameters::new() }
}

/// Writes the request as its canonical JSON text.
pub fn serialize_request(request: &BaichuanReq) -> (r: String)
    ensures
        r@ == request.encoding(),
{
    let mut parts: Vec<String> = Vec::new();
    let mut i: usize = 0;
    while i < request.messages.len()
        invariant
            i <= request.messages.len(),
            parts@.len() == i,
            forall|j: int|
                0 <= j < i ==> (#[trigger] parts@[j])@ == encode_message(request.messages@[j]@),
        decreases request.messages.len() - i,
    {
        parts.push(serialize_message(&request.messages[i]));
        i = i + 1;
    }
    assert(texts(parts@) =~= encoded_messages(message_views(request.messages@)));
    let mut out = String::from_str("{\"model\":");
    let model = json_quote(request.model.wire_name());
    out.append(model.as_str());
    out.append(",\"messages\":[");
    let joined = join_with_commas(&parts);
    out.append(joined.as_str());
    out.append("],\"parameters\":");
    let parameters = request.parameters.encode();
    out.append(parameters.as_str());
    out.append("}");
    out
}

} // verus!

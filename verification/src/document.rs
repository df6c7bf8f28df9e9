//! A request as a JSON document, and back.

use vstd::prelude::*;
use vstd::string::*;
use crate::json::{find_member, lemma_member_absent, lemma_member_at, member, Json};
use crate::request::BaichuanReq;
use crate::response::{decode_messages, message_of, messages_of, text_of};
use crate::types::{message_views, ChatMessage, ChatMessageView, Model};

verus! {

/// The model and the messages that a document stands for: an object whose
/// member `model` is the wire name of a model and whose member `messages` is
/// an array of messages. Members with other names are ignored.
pub open spec fn request_of(json: Json) -> Option<(Model, Seq<ChatMessageView>)> {
    match json {
        Json::Object(members) => {
            let model = match text_of(member(members@, "model"@)) {
                Some(name) => Model::of_wire_name(name),
                None => None,
            };
            let messages = match member(members@, "messages"@) {
                Some(Json::Array(items)) => messages_of(items@),
                _ => None,
            };
            if model is Some && messages is Some {
                Some((model.unwrap(), messages.unwrap()))
            } else {
                None
            }
        },
        _ => None,
    }
}

/// Reads the model and the messages of a request from a document.
pub fn decode_request(json: &Json) -> (r: Option<(Model, Vec<ChatMessage>)>)
    ensures
        match r {
            Some(found) => request_of(*json) == Some((found.0, message_views(found.1@))),
            None => request_of(*json) is None,
        },
{
    match json {
        Json::Object(members) => {
            let model = match find_member(members, "model") {
                Some(Json::Str(name)) => Model::from_wire_name(name.as_str()),
                _ => None,
            };
            let messages = match find_member(members, "messages") {
                Some(Json::Array(items)) => decode_messages(items),
                _ => None,
            };
            if model.is_some() && messages.is_some() {
                Some((model.unwrap(), messages.unwrap()))
            } else {
                None
            }
        },
        _ => None,
    }
}

/// The document of one message: an object with the members `role` and
/// `content`, and `finish_reason` where there is one. Reading it back gives
/// the message.
pub fn message_document(message: &ChatMessage) -> (r: Json)
    ensures
        message_of(r) == Some(message@),
{
    let mut members: Vec<(String, Json)> = Vec::new();
    members.push((String::from_str("role"), Json::Str(message.role.clone())));
    members.push((String::from_str("content"), Json::Str(message.content.clone())));
    proof {
        reveal_strlit("role");
        reveal_strlit("content");
        reveal_strlit("finish_reason");
        assert("role"@.len() == 4 && "content"@.len() == 7 && "finish_reason"@.len() == 13);
    }
    match &message.finish_reason {
        Some(reason) => {
            members.push((String::from_str("finish_reason"), Json::Str(reason.clone())));
            proof {
                lemma_member_at(members@, "finish_reason"@, 2);
            }
        },
        None => {
            proof {
                lemma_member_absent(members@, "finish_reason"@);
            }
        },
    }
    proof {
        lemma_member_at(members@, "role"@, 0);
        lemma_member_at(members@, "content"@, 1);
    }
    Json::Object(members)
}

/// The document of a request: an object with the members `model`, `messages`
/// and `parameters`. Reading it back gives the model and the messages of the
/// request.
pub fn request_document(request: &BaichuanReq) -> (r: Json)
    ensures
        request_of(r) == Some((request.model, message_views(request.messages@))),
{
    let mut items: Vec<Json> = Vec::new();
    let mut i: usize = 0;
    while i < request.messages.len()
        invariant
            i <= request.messages.len(),
            items@.len() == i,
            forall|j: int|
                0 <= j < i ==> message_of(#[trigger] items@[j]) == Some(request.messages@[j]@),
        decreases request.messages.len() - i,
    {
        items.push(message_document(&request.messages[i]));
        i = i + 1;
    }
    proof {
        assert(messages_of(items@) is Some);
        assert(messages_of(items@).unwrap() =~= message_views(request.messages@));
    }
    let mut members: Vec<(String, Json)> = Vec::new();
    members.push(
        (String::from_str("model"), Json::Str(String::from_str(request.model.wire_name()))),
    );
    members.push((String::from_str("messages"), Json::Array(items)));
    members.push((String::from_str("parameters"), request.parameters.document()));
    proof {
        reveal_strlit("model");
        reveal_strlit("messages");
        assert("model"@.len() == 5 && "messages"@.len() == 8);
        lemma_member_at(members@, "model"@, 0);
        lemma_member_at(members@, "messages"@, 1);
    }
    Json::Object(members)
}

} // verus!

//! Decoding: from a received status and body to a typed response or a
//! classified failure.

use vstd::prelude::*;
use vstd::string::*;
use crate::json::{find_member, json_parse, member, parse_document, Json};
use crate::types::{
    message_views, BaichuanData, BaichuanResp, ChatMessage, ChatMessageView, RespCode, RespView,
    UsageInfo,
};

verus! {

/// Why a call to the service gave no response.
#[derive(Debug, Clone)]
pub enum ChatError {
    /// The request could not be written.
    Serialization(String),
    /// The service could not be reached, or answered with a status other
    /// than 200; holds the body received, or the description of the failure.
    Transport(String),
    /// The body of a 200 answer is not a well-formed response.
    Decode(String),
}

/// What a `ChatError` holds, as plain values.
pub enum ChatErrorView {
    Serialization(Seq<char>),
    Transport(Seq<char>),
    Decode(Seq<char>),
}

impl View for ChatError {
    type V = ChatErrorView;

    open spec fn view(&self) -> ChatErrorView {
        match self {
            ChatError::Serialization(text) => ChatErrorView::Serialization(text@),
            ChatError::Transport(text) => ChatErrorView::Transport(text@),
            ChatError::Decode(text) => ChatErrorView::Decode(text@),
        }
    }
}

/// The text of the decode error for a document that is JSON but has not the
/// shape of a response.
pub open spec fn shape_mismatch() -> Seq<char> {
    "response does not match the expected shape"@
}

/// The text that `error` shows to a person.
pub open spec fn error_text(error: ChatErrorView) -> Seq<char> {
    match error {
        ChatErrorView::Serialization(text) => "failed to serialize request: "@ + text,
        ChatErrorView::Transport(text) => "failed to send request: "@ + text,
        ChatErrorView::Decode(text) => "failed to parse json: "@ + text,
    }
}

impl ChatError {
    /// The text that this error shows to a person.
    pub fn message(&self) -> (r: String)
        ensures
            r@ == error_text(self@),
    {
        match self {
            ChatError::Serialization(text) => {
                let mut out = String::from_str("failed to serialize request: ");
                out.append(text.as_str());
                out
            },
            ChatError::Transport(text) => {
                let mut out = String::from_str("failed to send request: ");
                out.append(text.as_str());
                out
            },
            ChatError::Decode(text) => {
                let mut out = String::from_str("failed to parse json: ");
                out.append(text.as_str());
                out
            },
        }
    }
}

/// The text of a member that must be a string.
pub open spec fn text_of(value: Option<Json>) -> Option<Seq<char>> {
    match value {
        Some(Json::Str(s)) => Some(s@),
        _ => None,
    }
}

/// The number of a member that must be an integer of 64 signed bits.
pub open spec fn int_of(value: Option<Json>) -> Option<i64> {
    match value {
        Some(Json::Int(i)) => Some(i),
        _ => None,
    }
}

/// The text of a member that may be missing or `null`: the outer `None`
/// stands for a member of another kind.
pub open spec fn optional_text_of(value: Option<Json>) -> Option<Option<Seq<char>>> {
    match value {
        None => Some(None),
        Some(Json::Null) => Some(None),
        Some(Json::Str(s)) => Some(Some(s@)),
        _ => None,
    }
}

/// The message that an object with the members `role`, `content` and,
/// optionally, `finish_reason` stands for.
pub open spec fn message_of(json: Json) -> Option<ChatMessageView> {
    match json {
        Json::Object(members) => {
            let role = text_of(member(members@, "role"@));
            let content = text_of(member(members@, "content"@));
            let reason = optional_text_of(member(members@, "finish_reason"@));
            if role is Some && content is Some && reason is Some {
                Some(
                    ChatMessageView {
                        role: role.unwrap(),
                        content: content.unwrap(),
                        finish_reason: reason.unwrap(),
                    },
                )
            } else {
                None
            }
        },
        _ => None,
    }
}

/// The messages that `items` stand for, if each of them stands for one.
pub open spec fn messages_of(items: Seq<Json>) -> Option<Seq<ChatMessageView>> {
    if forall|i: int| 0 <= i < items.len() ==> (#[trigger] message_of(items[i])) is Some {
        Some(Seq::new(items.len(), |i: int| message_of(items[i]).unwrap()))
    } else {
        None
    }
}

/// The messages of an object whose member `messages` is an array of messages.
pub open spec fn data_of(json: Json) -> Option<Seq<ChatMessageView>> {
    match json {
        Json::Object(members) => match member(members@, "messages"@) {
            Some(Json::Array(items)) => messages_of(items@),
            _ => None,
        },
        _ => None,
    }
}

/// The token counts of an object with the three integer members.
pub open spec fn usage_of(json: Json) -> Option<UsageInfo> {
    match json {
        Json::Object(members) => {
            let prompt = int_of(member(members@, "prompt_tokens"@));
            let answer = int_of(member(members@, "answer_tokens"@));
            let total = int_of(member(members@, "total_tokens"@));
            if prompt is Some && answer is Some && total is Some {
                Some(
                    UsageInfo {
                        prompt_tokens: prompt.unwrap(),
                        answer_tokens: answer.unwrap(),
                        total_tokens: total.unwrap(),
                    },
                )
            } else {
                None
            }
        },
        _ => None,
    }
}

/// The response that a document stands for: an object with an integer `code`
/// from the closed set, a string `msg`, and `data` and `usage`, each of which
/// may be missing or `null`. Members with other names are ignored. `None`
/// for any other document.
pub open spec fn response_of(json: Json) -> Option<RespView> {
    match json {
        Json::Object(members) => {
            let code = match int_of(member(members@, "code"@)) {
                Some(number) => RespCode::of_code(number as int),
                None => None,
            };
            let msg = text_of(member(members@, "msg"@));
            let data: Option<Option<Seq<ChatMessageView>>> = match member(members@, "data"@) {
                None => Some(None),
                Some(Json::Null) => Some(None),
                Some(inner) => match data_of(inner) {
                    Some(messages) => Some(Some(messages)),
                    None => None,
                },
            };
            let usage: Option<Option<UsageInfo>> = match member(members@, "usage"@) {
                None => Some(None),
                Some(Json::Null) => Some(None),
                Some(inner) => match usage_of(inner) {
                    Some(counts) => Some(Some(counts)),
                    None => None,
                },
            };
            if code is Some && msg is Some && data is Some && usage is Some {
                Some(
                    RespView {
                        code: code.unwrap(),
                        msg: msg.unwrap(),
                        data: data.unwrap(),
                        usage: usage.unwrap(),
                    },
                )
            } else {
                None
            }
        },
        _ => None,
    }
}

fn text_member(members: &Vec<(String, Json)>, name: &str) -> (r: Option<String>)
    ensures
        match r {
            Some(text) => text_of(member(members@, name@)) == Some(text@),
            None => text_of(member(members@, name@)) is None,
        },
{
    match find_member(members, name) {
        Some(Json::Str(s)) => Some(s.clone()),
        _ => None,
    }
}

fn int_member(members: &Vec<(String, Json)>, name: &str) -> (r: Option<i64>)
    ensures
        r == int_of(member(members@, name@)),
{
    match find_member(members, name) {
        Some(Json::Int(i)) => Some(*i),
        _ => None,
    }
}

fn optional_text_member(members: &Vec<(String, Json)>, name: &str) -> (r: Option<Option<String>>)
    ensures
        match r {
            Some(Some(text)) => optional_text_of(member(members@, name@)) == Some(Some(text@)),
            Some(None) => optional_text_of(member(members@, name@)) == Some(
                None::<Seq<char>>,
            ),
            None => optional_text_of(member(members@, name@)) is None,
        },
{
    match find_member(members, name) {
        None => Some(None),
        Some(Json::Null) => Some(None),
        Some(Json::Str(s)) => Some(Some(s.clone())),
        _ => None,
    }
}

/// Reads one message.
pub fn decode_message(json: &Json) -> (r: Option<ChatMessage>)
    ensures
        match r {
            Some(message) => message_of(*json) == Some(message@),
            None => message_of(*json) is None,
        },
{
    match json {
        Json::Object(members) => {
            let role = text_member(members, "role");
            let content = text_member(members, "content");
            let reason = optional_text_member(members, "finish_reason");
            if role.is_some() && content.is_some() && reason.is_some() {
                Some(
                    ChatMessage {
                        role: role.unwrap(),
                        content: content.unwrap(),
                        finish_reason: reason.unwrap(),
                    },
                )
            } else {
                None
            }
        },
        _ => None,
    }
}

/// Reads each of `items` as a message.
pub fn decode_messages(items: &Vec<Json>) -> (r: Option<Vec<ChatMessage>>)
    ensures
        match r {
            Some(messages) => messages_of(items@) == Some(message_views(messages@)),
            None => messages_of(items@) is None,
        },
{
    let mut out: Vec<ChatMessage> = Vec::new();
    let mut i: usize = 0;
    while i < items.len()
        invariant
            i <= items.len(),
            out@.len() == i,
            forall|j: int| 0 <= j < i ==> message_of(items@[j]) == Some((#[trigger] out@[j])@),
        decreases items.len() - i,
    {
        match decode_message(&items[i]) {
            Some(message) => {
                out.push(message);
            },
            None => {
                assert(message_of(items@[i as int]) is None);
                return None;
            },
        }
        i = i + 1;
    }
    proof {
        assert forall|j: int| 0 <= j < items@.len() implies (#[trigger] message_of(
            items@[j],
        )) is Some by {
            assert(message_of(items@[j]) == Some(out@[j]@));
        }
        assert(message_views(out@) =~= Seq::new(
            items@.len(),
            |j: int| message_of(items@[j]).unwrap(),
        )) by {
            assert forall|j: int| 0 <= j < items@.len() implies message_views(out@)[j]
                == message_of(items@[j]).unwrap() by {
                assert(message_of(items@[j]) == Some(out@[j]@));
            }
        }
    }
    Some(out)
}

/// Reads the `data` of a response.
pub fn decode_data(json: &Json) -> (r: Option<BaichuanData>)
    ensures
        match r {
            Some(data) => data_of(*json) == Some(data@),
            None => data_of(*json) is None,
        },
{
    match json {
        Json::Object(members) => match find_member(members, "messages") {
            Some(Json::Array(items)) => match decode_messages(items) {
                Some(messages) => Some(BaichuanData { messages }),
                None => None,
            },
            _ => None,
        },
        _ => None,
    }
}

/// Reads the `usage` of a response.
pub fn decode_usage(json: &Json) -> (r: Option<UsageInfo>)
    ensures
        r == usage_of(*json),
{
    match json {
        Json::Object(members) => {
            let prompt = int_member(members, "prompt_tokens");
            let answer = int_member(members, "answer_tokens");
            let total = int_member(members, "total_tokens");
            if prompt.is_some() && answer.is_some() && total.is_some() {
                Some(
                    UsageInfo {
                        prompt_tokens: prompt.unwrap(),
                        answer_tokens: answer.unwrap(),
                        total_tokens: total.unwrap(),
                    },
                )
            } else {
                None
            }
        },
        _ => None,
    }
}

/// Reads a response from a document. A document of another shape, or with a
/// code outside the closed set, gives `None`.
pub fn decode_response(json: &Json) -> (r: Option<BaichuanResp>)
    ensures
        match r {
            Some(response) => response_of(*json) == Some(response@),
            None => response_of(*json) is None,
        },
{
    match json {
        Json::Object(members) => {
            let code = match int_member(members, "code") {
                Some(number) => RespCode::from_code(number),
                None => None,
            };
            let msg = text_member(members, "msg");
            let data: Option<Option<BaichuanData>> = match find_member(members, "data") {
                None => Some(None),
                Some(Json::Null) => Some(None),
                Some(inner) => match decode_data(inner) {
                    Some(d) => Some(Some(d)),
                    None => None,
                },
            };
            let usage: Option<Option<UsageInfo>> = match find_member(members, "usage") {
                None => Some(None),
                Some(Json::Null) => Some(None),
                Some(inner) => match decode_usage(inner) {
                    Some(u) => Some(Some(u)),
                    None => None,
                },
            };
            if code.is_some() && msg.is_some() && data.is_some() && usage.is_some() {
                Some(
                    BaichuanResp {
                        code: code.unwrap(),
                        msg: msg.unwrap(),
                        data: data.unwrap(),
                        usage: usage.unwrap(),
                    },
                )
            } else {
                None
            }
        },
        _ => None,
    }
}

/// The view of the outcome of a call.
pub open spec fn outcome_view(outcome: Result<BaichuanResp, ChatError>) -> Result<
    RespView,
    ChatErrorView,
> {
    match outcome {
        Ok(response) => Ok(response@),
        Err(error) => Err(error@),
    }
}

/// What a parsed body decodes to: the response that the document stands
/// for; a decode error with the fixed text where it stands for none; a decode
/// error with the parser's text where the body is no JSON document.
pub open spec fn decoded(parsed: Result<Json, Seq<char>>) -> Result<RespView, ChatErrorView> {
    match parsed {
        Ok(json) => match response_of(json) {
            Some(response) => Ok(response),
            None => Err(ChatErrorView::Decode(shape_mismatch())),
        },
        Err(message) => Err(ChatErrorView::Decode(message)),
    }
}

/// What the service's answer means. Status 200: what the body decodes to, or
/// a decode error with the description where the body could not be read. Any
/// other status: a transport error with the body as it came, or with the
/// description where it could not be read; the body is not looked into.
pub open spec fn interpreted(status: int, body: Result<Seq<char>, Seq<char>>) -> Result<
    RespView,
    ChatErrorView,
> {
    if status == 200 {
        match body {
            Ok(text) => decoded(json_parse(text)),
            Err(description) => Err(ChatErrorView::Decode(description)),
        }
    } else {
        match body {
            Ok(text) => Err(ChatErrorView::Transport(text)),
            Err(description) => Err(ChatErrorView::Transport(description)),
        }
    }
}

/// Decodes the result of parsing a body.
pub fn decode_parsed(parsed: Result<Json, String>) -> (r: Result<BaichuanResp, ChatError>)
    ensures
        outcome_view(r) == decoded(
            match parsed {
                Ok(json) => Ok(json),
                Err(message) => Err(message@),
            },
        ),
{
    match parsed {
        Ok(json) => match decode_response(&json) {
            Some(response) => Ok(response),
            None => Err(
                ChatError::Decode(String::from_str("response does not match the expected shape")),
            ),
        },
        Err(message) => Err(ChatError::Decode(message)),
    }
}

/// Decodes the body of a 200 answer.
pub fn decode_body(text: &str) -> (r: Result<BaichuanResp, ChatError>)
    ensures
        outcome_view(r) == decoded(json_parse(text@)),
{
    decode_parsed(parse_document(text))
}

/// Turns the status and the body of the service's answer into the outcome of
/// the call. `body` is the text received, or the description of the failure to
/// read it.
pub fn interpret_response(status: u16, body: Result<String, String>) -> (r: Result<
    BaichuanResp,
    ChatError,
>)
    ensures
        outcome_view(r) == interpreted(
            status as int,
            match body {
                Ok(text) => Ok(text@),
                Err(description) => Err(description@),
            },
        ),
        status != 200 ==> r is Err && r.unwrap_err() is Transport,
{
    if status == 200 {
        match body {
            Ok(text) => decode_body(text.as_str()),
            Err(description) => Err(ChatError::Decode(description)),
        }
    } else {
        match body {
            Ok(text) => Err(ChatError::Transport(text)),
            Err(description) => Err(ChatError::Transport(description)),
        }
    }
}

} // verus!

//! One call to the service: what is to be sent, and what the answer means.
//!
//! The body that is signed is the body that is handed out for sending: it is
//! written once. Sending itself is left to the caller, who reports what came
//! of it.

use vstd::prelude::*;
use vstd::string::*;
use crate::request::{build_request, encode_request, serialize_request, user_messages};
use crate::response::{
    interpret_response, interpreted, outcome_view, ChatError, ChatErrorView,
};
use crate::sign::{is_signed_at, sign, SignedHeaders};
use crate::types::{BaichuanResp, Model, RespView};

verus! {

/// The address that requests are posted to.
pub open spec fn endpoint() -> Seq<char> {
    "https://api.baichuan-ai.com/v1/chat"@
}

/// A request that is ready to be sent.
#[derive(Debug, Clone)]
pub struct PreparedRequest {
    pub url: String,
    pub headers: SignedHeaders,
    pub body: String,
    pub request_id: String,
}

/// Builds the request that asks `model` the `messages`, writes its body and
/// signs that body now.
pub fn prepare_request(
    api_key: &String,
    secret_key: &String,
    model: Model,
    messages: Vec<String>,
) -> (r: PreparedRequest)
    ensures
        r.url@ == endpoint(),
        r.body@ == encode_request(
            model,
            user_messages(messages@),
            Seq::<(Seq<char>, Seq<char>)>::empty(),
        ),
        r.request_id@.len() == 26,
        exists|timestamp: int| #[trigger]
            is_signed_at(
                r.headers.pairs(),
                api_key@,
                secret_key@,
                r.body@,
                timestamp,
                r.request_id@,
            ),
{
    let request = build_request(model, messages);
    let body = serialize_request(&request);
    let (headers, request_id) = sign(api_key.as_str(), secret_key.as_str(), body.as_str());
    let r = PreparedRequest {
        url: String::from_str("https://api.baichuan-ai.com/v1/chat"),
        headers,
        body,
        request_id,
    };
    let ghost timestamp = choose|timestamp: int| #[trigger]
        is_signed_at(
            r.headers.pairs(),
            api_key@,
            secret_key@,
            r.body@,
            timestamp,
            r.request_id@,
        );
    assert(is_signed_at(
        r.headers.pairs(),
        api_key@,
        secret_key@,
        r.body@,
        timestamp,
        r.request_id@,
    ));
    r
}

/// What came of sending a request.
#[derive(Debug)]
pub enum SendOutcome {
    /// The service answered with `status`; `body` is the text received, or
    /// the description of the failure to read it.
    Answered { status: u16, body: Result<String, String> },
    /// No answer came; holds the description of the failure.
    Failed(String),
}

/// The characters of a body, or of the description that stands in its place.
pub open spec fn body_view(body: Result<String, String>) -> Result<Seq<char>, Seq<char>> {
    match body {
        Ok(text) => Ok(text@),
        Err(description) => Err(description@),
    }
}

/// The outcome of the call for each way the sending can end: an answer means
/// what its status and body mean; no answer is a transport error with the
/// description of the failure.
pub open spec fn concluded(outcome: SendOutcome) -> Result<RespView, ChatErrorView> {
    match outcome {
        SendOutcome::Answered { status, body } => interpreted(status as int, body_view(body)),
        SendOutcome::Failed(description) => Err(ChatErrorView::Transport(description@)),
    }
}

/// Ends the call: turns what came of the one attempt into its outcome. There
/// is no second attempt.
pub fn conclude(outcome: SendOutcome) -> (r: Result<BaichuanResp, ChatError>)
    ensures
        outcome_view(r) == concluded(outcome),
{
    match outcome {
        SendOutcome::Answered { status, body } => interpret_response(status, body),
        SendOutcome::Failed(description) => Err(ChatError::Transport(description)),
    }
}

} // verus!

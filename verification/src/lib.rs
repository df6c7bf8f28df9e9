//! Request signing and response decoding for the Baichuan chat service.
//!
//! The crate turns a list of user utterances into the exact request body and
//! the authentication headers that the service expects, and turns a received
//! status and body into a typed response or a classified failure.

pub mod text;
pub mod digest;
pub mod types;
pub mod request;
pub mod sign;
pub mod json;
pub mod response;
pub mod document;
pub mod client;

pub use client::{conclude, prepare_request, PreparedRequest, SendOutcome};
pub use digest::md5_hash;
pub use document::{decode_request, request_document};
pub use json::{parse_document, Json};
pub use request::{build_request, serialize_request, BaichuanReq, Parameters};
pub use response::{decode_body, decode_response, interpret_response, ChatError};
pub use sign::{compute_signature, generate_header, sign, sign_at, SignedHeaders};
pub use types::{BaichuanData, BaichuanResp, ChatMessage, Model, RespCode, UsageInfo};

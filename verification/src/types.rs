//! The data that travels between a caller and the chat service.

use vstd::prelude::*;
use crate::text::str_eq;

verus! {

/// One utterance of a conversation.
#[derive(Debug, Clone)]
pub struct ChatMessage {
    pub role: String,
    pub content: String,
    pub finish_reason: Option<String>,
}

/// What a `ChatMessage` holds, as plain sequences of characters.
pub struct ChatMessageView {
    pub role: Seq<char>,
    pub content: Seq<char>,
    pub finish_reason: Option<Seq<char>>,
}

/// The characters of an optional string.
pub open spec fn opt_text(s: Option<String>) -> Option<Seq<char>> {
    match s {
        Some(t) => Some(t@),
        None => None,
    }
}

impl View for ChatMessage {
    type V = ChatMessageView;

    open spec fn view(&self) -> ChatMessageView {
        ChatMessageView {
            role: self.role@,
            content: self.content@,
            finish_reason: opt_text(self.finish_reason),
        }
    }
}

/// The views of a sequence of messages, in the same order.
pub open spec fn message_views(messages: Seq<ChatMessage>) -> Seq<ChatMessageView> {
    Seq::new(messages.len(), |i: int| messages[i]@)
}

impl ChatMessage {
    /// A message a user sends: role `user`, no finish reason.
    pub fn user(content: String) -> (r: ChatMessage)
        ensures
            r@.role == "user"@,
            r@.content == content@,
            r@.finish_reason is None,
    {
        ChatMessage { role: "user".to_string(), content, finish_reason: None }
    }
}

/// The outcome that the service reports in a response.
#[derive(Debug, Clone, Copy, PartialEq, Eq, Structural)]
pub enum RespCode {
    Success,
    SystemError,
    InvalidParameters,
    MissingApikey,
    InvalidApikey,
    ApikeyExpired,
    InvalidTimestamp,
    ExpireTimestamp,
    InvalidSignature,
    InvalidEncryptionAlgorithm,
    AccountNotFound,
    AccountLocked,
    AccountTempLocked,
    AccountRequestTooFrequent,
    AccountBalanceInsufficient,
    AccountNotVerified,
    PromptNotSafe,
    AnswerNotSafe,
    InternalError,
}

impl RespCode {
    /// The number that stands for this outcome on the wire.
    pub open spec fn code_value(self) -> int {
        match self {
            RespCode::Success => 0,
            RespCode::SystemError => 1,
            RespCode::InvalidParameters => 10000,
            RespCode::MissingApikey => 10100,
            RespCode::InvalidApikey => 10101,
            RespCode::ApikeyExpired => 10102,
            RespCode::InvalidTimestamp => 10103,
            RespCode::ExpireTimestamp => 10104,
            RespCode::InvalidSignature => 10105,
            RespCode::InvalidEncryptionAlgorithm => 10106,
            RespCode::AccountNotFound => 10200,
            RespCode::AccountLocked => 10201,
            RespCode::AccountTempLocked => 10202,
            RespCode::AccountRequestTooFrequent => 10203,
            RespCode::AccountBalanceInsufficient => 10300,
            RespCode::AccountNotVerified => 10301,
            RespCode::PromptNotSafe => 10400,
            RespCode::AnswerNotSafe => 10401,
            RespCode::InternalError => 10500,
        }
    }

    /// Whether some outcome has the number `code`.
    pub open spec fn is_known(code: int) -> bool {
        exists|c: RespCode| #[trigger] c.code_value() == code
    }

    /// The outcome with the number `code`, if there is one.
    pub open spec fn of_code(code: int) -> Option<RespCode> {
        if Self::is_known(code) {
            Some(choose|c: RespCode| #[trigger] c.code_value() == code)
        } else {
            None
        }
    }

    /// No two outcomes share a number.
    pub proof fn lemma_code_value_injective(a: RespCode, b: RespCode)
        requires
            a.code_value() == b.code_value(),
        ensures
            a == b,
    {
    }

    /// Reading back the number of an outcome gives that outcome, and an
    /// outcome read from a number has that number.
    pub proof fn lemma_code_round_trip(c: RespCode, code: int)
        ensures
            Self::of_code(c.code_value()) == Some(c),
            Self::of_code(code) is Some ==> Self::of_code(code).unwrap().code_value() == code,
            Self::of_code(code) == Some(c) <==> c.code_value() == code,
    {
        assert(Self::is_known(c.code_value()));
        let back = Self::of_code(c.code_value()).unwrap();
        Self::lemma_code_value_injective(back, c);
        if c.code_value() == code {
            assert(Self::of_code(code) == Some(c));
        }
    }

    /// The number that stands for this outcome on the wire.
    pub fn code(&self) -> (r: i32)
        ensures
            r == self.code_value(),
    {
        match self {
            RespCode::Success => 0,
            RespCode::SystemError => 1,
            RespCode::InvalidParameters => 10000,
            RespCode::MissingApikey => 10100,
            RespCode::InvalidApikey => 10101,
            RespCode::ApikeyExpired => 10102,
            RespCode::InvalidTimestamp => 10103,
            RespCode::ExpireTimestamp => 10104,
            RespCode::InvalidSignature => 10105,
            RespCode::InvalidEncryptionAlgorithm => 10106,
            RespCode::AccountNotFound => 10200,
            RespCode::AccountLocked => 10201,
            RespCode::AccountTempLocked => 10202,
            RespCode::AccountRequestTooFrequent => 10203,
            RespCode::AccountBalanceInsufficient => 10300,
            RespCode::AccountNotVerified => 10301,
            RespCode::PromptNotSafe => 10400,
            RespCode::AnswerNotSafe => 10401,
            RespCode::InternalError => 10500,
        }
    }

    /// The outcome with the number `code`; `None` for a number outside the
    /// closed set.
    pub fn from_code(code: i64) -> (r: Option<RespCode>)
        ensures
            r == Self::of_code(code as int),
            match r {
                Some(c) => c.code_value() == code,
                None => !Self::is_known(code as int),
            },
    {
        let r = if code == 0 {
            Some(RespCode::Success)
        } else if code == 1 {
            Some(RespCode::SystemError)
        } else if code == 10000 {
            Some(RespCode::InvalidParameters)
        } else if code == 10100 {
            Some(RespCode::MissingApikey)
        } else if code == 10101 {
            Some(RespCode::InvalidApikey)
        } else if code == 10102 {
            Some(RespCode::ApikeyExpired)
        } else if code == 10103 {
            Some(RespCode::InvalidTimestamp)
        } else if code == 10104 {
            Some(RespCode::ExpireTimestamp)
        } else if code == 10105 {
            Some(RespCode::InvalidSignature)
        } else if code == 10106 {
            Some(RespCode::InvalidEncryptionAlgorithm)
        } else if code == 10200 {
            Some(RespCode::AccountNotFound)
        } else if code == 10201 {
            Some(RespCode::AccountLocked)
        } else if code == 10202 {
            Some(RespCode::AccountTempLocked)
        } else if code == 10203 {
            Some(RespCode::AccountRequestTooFrequent)
        } else if code == 10300 {
            Some(RespCode::AccountBalanceInsufficient)
        } else if code == 10301 {
            Some(RespCode::AccountNotVerified)
        } else if code == 10400 {
            Some(RespCode::PromptNotSafe)
        } else if code == 10401 {
            Some(RespCode::AnswerNotSafe)
        } else if code == 10500 {
            Some(RespCode::InternalError)
        } else {
            None
        };
        proof {
            match r {
                Some(c) => {
                    Self::lemma_code_round_trip(c, code as int);
                },
                None => {
                    assert forall|c: RespCode| c.code_value() != code as int by {}
                },
            }
        }
        r
    }

    /// Whether this outcome is the one success among the outcomes.
    pub fn is_success(&self) -> (r: bool)
        ensures
            r == (self.code_value() == 0),
            r == (*self == RespCode::Success),
    {
        match self {
            RespCode::Success => true,
            _ => false,
        }
    }
}

/// Token accounting of a successful response.
#[derive(Debug, Clone, Copy, PartialEq, Eq, Structural)]
pub struct UsageInfo {
    pub prompt_tokens: i64,
    pub answer_tokens: i64,
    pub total_tokens: i64,
}

/// The messages carried by a response.
#[derive(Debug, Clone)]
pub struct BaichuanData {
    pub messages: Vec<ChatMessage>,
}

impl View for BaichuanData {
    type V = Seq<ChatMessageView>;

    open spec fn view(&self) -> Seq<ChatMessageView> {
        message_views(self.messages@)
    }
}

/// A decoded response of the service, success or failure.
#[derive(Debug, Clone)]
pub struct BaichuanResp {
    pub code: RespCode,
    pub msg: String,
    pub data: Option<BaichuanData>,
    pub usage: Option<UsageInfo>,
}

/// What a `BaichuanResp` holds, as plain values.
pub struct RespView {
    pub code: RespCode,
    pub msg: Seq<char>,
    pub data: Option<Seq<ChatMessageView>>,
    pub usage: Option<UsageInfo>,
}

impl View for BaichuanResp {
    type V = RespView;

    open spec fn view(&self) -> RespView {
        RespView {
            code: self.code,
            msg: self.msg@,
            data: match self.data {
                Some(d) => Some(d@),
                None => None,
            },
            usage: self.usage,
        }
    }
}

/// The language model that answers.
#[allow(non_camel_case_types)]
#[derive(Debug, Clone, Copy, PartialEq, Eq, Structural)]
pub enum Model {
    Baichuan2_53B,
}

impl Model {
    /// The name of the model on the wire.
    pub open spec fn wire_name_text(self) -> Seq<char> {
        match self {
            Model::Baichuan2_53B => "Baichuan2-53B"@,
        }
    }

    /// The model with the wire name `name`, if there is one.
    pub open spec fn of_wire_name(name: Seq<char>) -> Option<Model> {
        if name == "Baichuan2-53B"@ {
            Some(Model::Baichuan2_53B)
        } else {
            None
        }
    }

    /// The wire name of a model names that model, and a model read from a
    /// name has that name.
    pub proof fn lemma_wire_name_round_trip(m: Model, name: Seq<char>)
        ensures
            Self::of_wire_name(m.wire_name_text()) == Some(m),
            Self::of_wire_name(name) == Some(m) <==> m.wire_name_text() == name,
    {
    }

    /// The name of the model on the wire.
    pub fn wire_name(&self) -> (r: &'static str)
        ensures
            r@ == self.wire_name_text(),
    {
        match self {
            Model::Baichuan2_53B => "Baichuan2-53B",
        }
    }

    /// The model with the wire name `name`; `None` for an unknown name.
    pub fn from_wire_name(name: &str) -> (r: Option<Model>)
        ensures
            r == Self::of_wire_name(name@),
    {
        if str_eq(name, "Baichuan2-53B") {
            Some(Model::Baichuan2_53B)
        } else {
            None
        }
    }
}

} // verus!

use baichuan_cli::json::find_member;
use baichuan_cli::request::join_with_commas;
use baichuan_cli::{
    build_request, decode_body, decode_response, interpret_response, parse_document,
    serialize_request, ChatError, Json, Model, RespCode,
};

const CODES: [(i32, RespCode); 19] = [
    (0, RespCode::Success),
    (1, RespCode::SystemError),
    (10000, RespCode::InvalidParameters),
    (10100, RespCode::MissingApikey),
    (10101, RespCode::InvalidApikey),
    (10102, RespCode::ApikeyExpired),
    (10103, RespCode::InvalidTimestamp),
    (10104, RespCode::ExpireTimestamp),
    (10105, RespCode::InvalidSignature),
    (10106, RespCode::InvalidEncryptionAlgorithm),
    (10200, RespCode::AccountNotFound),
    (10201, RespCode::AccountLocked),
    (10202, RespCode::AccountTempLocked),
    (10203, RespCode::AccountRequestTooFrequent),
    (10300, RespCode::AccountBalanceInsufficient),
    (10301, RespCode::AccountNotVerified),
    (10400, RespCode::PromptNotSafe),
    (10401, RespCode::AnswerNotSafe),
    (10500, RespCode::InternalError),
];

fn decode_message_of(error: ChatError) -> String {
    match error {
        ChatError::Decode(text) => text,
        other => panic!("not a decode error: {:?}", other),
    }
}

#[test]
fn test_resp_deser() {
    let text = r#"{"code":0,"msg":"success","data":{"messages":[{"role":"assistant","content":"你好！很高兴为您提供帮助。请问您有什么问题需要我解答？","finish_reason":"stop"}]},"usage":{"prompt_tokens":3,"answer_tokens":15,"total_tokens":18}}"#;
    let parsed = decode_body(text).expect("cannot parse");
    assert!(parsed.data.is_some());
    assert_eq!(parsed.data.unwrap().messages.len(), 1);
}

#[test]
fn decodes_the_sample_response() {
    let text = r#"{"code":0,"msg":"success","data":{"messages":[{"role":"assistant","content":"hello","finish_reason":"stop"}]},"usage":{"prompt_tokens":3,"answer_tokens":15,"total_tokens":18}}"#;
    let response = decode_body(text).unwrap();
    assert_eq!(response.code, RespCode::Success);
    assert!(response.code.is_success());
    assert_eq!(response.msg, "success");
    let data = response.data.unwrap();
    assert_eq!(data.messages.len(), 1);
    assert_eq!(data.messages[0].role, "assistant");
    assert_eq!(data.messages[0].content, "hello");
    assert_eq!(data.messages[0].finish_reason, Some("stop".to_string()));
    let usage = response.usage.unwrap();
    assert_eq!(usage.prompt_tokens, 3);
    assert_eq!(usage.answer_tokens, 15);
    assert_eq!(usage.total_tokens, 18);
}

#[test]
fn decodes_a_failure_without_data() {
    let response = decode_body(r#"{"code":10100,"msg":"Missing apikey"}"#).unwrap();
    assert_eq!(response.code, RespCode::MissingApikey);
    assert!(!response.code.is_success());
    assert_eq!(response.msg, "Missing apikey");
    assert!(response.data.is_none());
    assert!(response.usage.is_none());
}

#[test]
fn status_200_with_a_failure_code_is_a_response() {
    let response =
        interpret_response(200, Ok(r#"{"code":10203,"msg":"Request too frequent"}"#.to_string()))
            .unwrap();
    assert_eq!(response.code, RespCode::AccountRequestTooFrequent);
}

#[test]
fn null_data_and_usage_count_as_missing() {
    let response = decode_body(r#"{"code":1,"msg":"","data":null,"usage":null,"extra":[1,2]}"#).unwrap();
    assert_eq!(response.code, RespCode::SystemError);
    assert!(response.data.is_none());
    assert!(response.usage.is_none());
}

#[test]
fn message_without_finish_reason() {
    let response = decode_body(
        r#"{"code":0,"msg":"success","data":{"messages":[{"role":"assistant","content":"a"},{"role":"assistant","content":"b","finish_reason":null}]}}"#,
    )
    .unwrap();
    let data = response.data.unwrap();
    assert_eq!(data.messages.len(), 2);
    assert!(data.messages[0].finish_reason.is_none());
    assert!(data.messages[1].finish_reason.is_none());
    assert_eq!(data.messages[1].content, "b");
}

#[test]
fn unknown_code_is_a_decode_error() {
    let error = decode_body(r#"{"code":42,"msg":"?"}"#).unwrap_err();
    assert_eq!(decode_message_of(error), "response does not match the expected shape");
    assert!(matches!(decode_body(r#"{"code":-1,"msg":"?"}"#), Err(ChatError::Decode(_))));
    assert!(matches!(decode_body(r#"{"code":10107,"msg":"?"}"#), Err(ChatError::Decode(_))));
}

#[test]
fn wrong_shapes_are_decode_errors() {
    let bodies = [
        r#"{"msg":"no code"}"#,
        r#"{"code":0}"#,
        r#"{"code":"0","msg":"text code"}"#,
        r#"{"code":0.5,"msg":"fraction"}"#,
        r#"{"code":0,"msg":7}"#,
        r#"{"code":0,"msg":"m","data":{}}"#,
        r#"{"code":0,"msg":"m","data":{"messages":{}}}"#,
        r#"{"code":0,"msg":"m","data":{"messages":[{"role":"assistant"}]}}"#,
        r#"{"code":0,"msg":"m","data":{"messages":[{"role":"a","content":"b","finish_reason":3}]}}"#,
        r#"{"code":0,"msg":"m","usage":{"prompt_tokens":3,"answer_tokens":15}}"#,
        r#"{"code":0,"msg":"m","usage":{"prompt_tokens":3,"answer_tokens":15,"total_tokens":"18"}}"#,
        r#"{"code":0,"msg":"m","usage":{"prompt_tokens":3,"answer_tokens":15,"total_tokens":18446744073709551615}}"#,
        r#"[]"#,
        r#""text""#,
        r#"null"#,
    ];
    for body in bodies {
        let error = decode_body(body).unwrap_err();
        assert_eq!(
            decode_message_of(error),
            "response does not match the expected shape",
            "{}",
            body
        );
    }
}

#[test]
fn malformed_json_carries_the_parser_message() {
    let body = r#"{"code":0,"msg":"#;
    let expected = serde_json::from_str::<serde_json::Value>(body).unwrap_err().to_string();
    let error = decode_body(body).unwrap_err();
    assert_eq!(decode_message_of(error), expected);
    let error = interpret_response(200, Ok("<html>".to_string())).unwrap_err();
    assert_eq!(
        error.message(),
        format!(
            "failed to parse json: {}",
            serde_json::from_str::<serde_json::Value>("<html>").unwrap_err()
        )
    );
}

#[test]
fn unreadable_body_of_a_200_answer_is_a_decode_error() {
    let error = interpret_response(200, Err("connection reset".to_string())).unwrap_err();
    assert_eq!(decode_message_of(error), "connection reset");
}

#[test]
fn other_status_is_a_transport_error_with_the_body() {
    let body = r#"{"code":0,"msg":"success"}"#;
    for status in [0u16, 199, 201, 204, 301, 400, 401, 404, 500, 503, u16::MAX] {
        match interpret_response(status, Ok(body.to_string())) {
            Err(ChatError::Transport(text)) => assert_eq!(text, body),
            other => panic!("status {}: {:?}", status, other),
        }
    }
    match interpret_response(502, Ok("Bad \"Request\"\n".to_string())) {
        Err(ChatError::Transport(text)) => assert_eq!(text, "Bad \"Request\"\n"),
        other => panic!("{:?}", other),
    }
    match interpret_response(502, Err("timed out".to_string())) {
        Err(ChatError::Transport(text)) => assert_eq!(text, "timed out"),
        other => panic!("{:?}", other),
    }
}

#[test]
fn error_messages() {
    assert_eq!(
        ChatError::Transport("boom".to_string()).message(),
        "failed to send request: boom"
    );
    assert_eq!(ChatError::Decode("eof".to_string()).message(), "failed to parse json: eof");
    assert_eq!(
        ChatError::Serialization("bad".to_string()).message(),
        "failed to serialize request: bad"
    );
}

#[test]
fn codes_map_both_ways() {
    for (number, code) in CODES {
        assert_eq!(code.code(), number);
        assert_eq!(RespCode::from_code(number as i64), Some(code));
        assert_eq!(code.is_success(), number == 0);
    }
    for number in [-1i64, 2, 9999, 10001, 10107, 10204, 10302, 10402, 10501, i64::MAX, i64::MIN] {
        assert_eq!(RespCode::from_code(number), None);
    }
    assert_eq!(RespCode::from_code(4294967296), None);
}

#[test]
fn model_names_map_both_ways() {
    assert_eq!(Model::Baichuan2_53B.wire_name(), "Baichuan2-53B");
    assert_eq!(Model::from_wire_name("Baichuan2-53B"), Some(Model::Baichuan2_53B));
    assert_eq!(Model::from_wire_name("Baichuan2_53B"), None);
    assert_eq!(Model::from_wire_name("baichuan2-53b"), None);
    assert_eq!(Model::from_wire_name(""), None);
}

#[test]
fn documents_are_read_variant_by_variant() {
    let json = parse_document(
        r#"{"n":null,"t":true,"i":-7,"big":18446744073709551615,"f":1.5,"s":"x\ny","a":[1,"two",[]],"o":{"k":false}}"#,
    )
    .unwrap();
    let members = match json {
        Json::Object(members) => members,
        other => panic!("{:?}", other),
    };
    assert_eq!(members.len(), 8);
    assert!(matches!(find_member(&members, "n"), Some(Json::Null)));
    assert!(matches!(find_member(&members, "t"), Some(Json::Bool(true))));
    assert!(matches!(find_member(&members, "i"), Some(Json::Int(-7))));
    match find_member(&members, "big") {
        Some(Json::Number(text)) => assert_eq!(text, "18446744073709551615"),
        other => panic!("{:?}", other),
    }
    match find_member(&members, "f") {
        Some(Json::Number(text)) => assert_eq!(text, "1.5"),
        other => panic!("{:?}", other),
    }
    match find_member(&members, "s") {
        Some(Json::Str(text)) => assert_eq!(text, "x\ny"),
        other => panic!("{:?}", other),
    }
    match find_member(&members, "a") {
        Some(Json::Array(items)) => {
            assert_eq!(items.len(), 3);
            assert!(matches!(items[0], Json::Int(1)));
            assert!(matches!(&items[1], Json::Str(s) if s == "two"));
            assert!(matches!(&items[2], Json::Array(inner) if inner.is_empty()));
        }
        other => panic!("{:?}", other),
    }
    match find_member(&members, "o") {
        Some(Json::Object(inner)) => {
            assert_eq!(inner.len(), 1);
            assert_eq!(inner[0].0, "k");
            assert!(matches!(inner[0].1, Json::Bool(false)));
        }
        other => panic!("{:?}", other),
    }
    assert!(find_member(&members, "missing").is_none());
    assert!(find_member(&members, "N").is_none());
}

#[test]
fn document_errors_are_those_of_the_parser() {
    for text in ["", "{", "[1,]", "{\"a\":1}x", "nul"] {
        let expected = serde_json::from_str::<serde_json::Value>(text).unwrap_err().to_string();
        assert_eq!(parse_document(text).unwrap_err(), expected);
    }
}

#[test]
fn decode_response_works_on_a_built_document() {
    let document = Json::Object(vec![
        ("msg".to_string(), Json::Str("ok".to_string())),
        ("code".to_string(), Json::Int(10500)),
        (
            "usage".to_string(),
            Json::Object(vec![
                ("total_tokens".to_string(), Json::Int(3)),
                ("answer_tokens".to_string(), Json::Int(2)),
                ("prompt_tokens".to_string(), Json::Int(1)),
            ]),
        ),
    ]);
    let response = decode_response(&document).unwrap();
    assert_eq!(response.code, RespCode::InternalError);
    assert_eq!(response.msg, "ok");
    assert!(response.data.is_none());
    let usage = response.usage.unwrap();
    assert_eq!((usage.prompt_tokens, usage.answer_tokens, usage.total_tokens), (1, 2, 3));
    assert!(decode_response(&Json::Array(vec![])).is_none());
    assert!(decode_response(&Json::Object(vec![("code".to_string(), Json::Int(0))])).is_none());
}

#[test]
fn encoded_request_reads_back_as_the_same_model_and_messages() {
    let contents = vec!["first \"one\"".to_string(), "second\\\n".to_string(), String::new()];
    let request = build_request(Model::Baichuan2_53B, contents.clone());
    let text = serialize_request(&request);
    let members = match parse_document(&text).unwrap() {
        Json::Object(members) => members,
        other => panic!("{:?}", other),
    };
    match find_member(&members, "model") {
        Some(Json::Str(name)) => {
            assert_eq!(Model::from_wire_name(name), Some(Model::Baichuan2_53B))
        }
        other => panic!("{:?}", other),
    }
    let items = match find_member(&members, "messages") {
        Some(Json::Array(items)) => items,
        other => panic!("{:?}", other),
    };
    assert_eq!(items.len(), contents.len());
    for (item, content) in items.iter().zip(contents.iter()) {
        let message = baichuan_cli::response::decode_message(item).unwrap();
        assert_eq!(message.role, "user");
        assert_eq!(&message.content, content);
        assert!(message.finish_reason.is_none());
    }
    assert!(matches!(find_member(&members, "parameters"), Some(Json::Object(inner)) if inner.is_empty()));
}

#[test]
fn joins_with_commas() {
    assert_eq!(join_with_commas(&vec![]), "");
    assert_eq!(join_with_commas(&vec!["a".to_string()]), "a");
    assert_eq!(
        join_with_commas(&vec!["a".to_string(), "".to_string(), "c".to_string()]),
        "a,,c"
    );
}

#[test]
fn request_document_reads_back() {
    let mut request = build_request(
        Model::Baichuan2_53B,
        vec!["one".to_string(), "two \"quoted\"".to_string()],
    );
    request.messages[1].finish_reason = Some("stop".to_string());
    let document = baichuan_cli::request_document(&request);
    let (model, messages) = baichuan_cli::decode_request(&document).unwrap();
    assert_eq!(model, Model::Baichuan2_53B);
    assert_eq!(messages.len(), 2);
    assert_eq!(messages[0].role, "user");
    assert_eq!(messages[0].content, "one");
    assert!(messages[0].finish_reason.is_none());
    assert_eq!(messages[1].content, "two \"quoted\"");
    assert_eq!(messages[1].finish_reason, Some("stop".to_string()));
}

#[test]
fn encoded_request_decodes_to_the_request() {
    let contents = vec!["a".to_string(), "b\u{0}\u{1f}\u{7f}\u{e9}".to_string()];
    let request = build_request(Model::Baichuan2_53B, contents.clone());
    let parsed = parse_document(&serialize_request(&request)).unwrap();
    let (model, messages) = baichuan_cli::decode_request(&parsed).unwrap();
    assert_eq!(model, request.model);
    assert_eq!(messages.len(), contents.len());
    for (message, content) in messages.iter().zip(contents.iter()) {
        assert_eq!(message.role, "user");
        assert_eq!(&message.content, content);
        assert!(message.finish_reason.is_none());
    }
}

#[test]
fn decode_request_refuses_other_documents() {
    assert!(baichuan_cli::decode_request(&Json::Null).is_none());
    let unknown_model = parse_document(r#"{"model":"other","messages":[]}"#).unwrap();
    assert!(baichuan_cli::decode_request(&unknown_model).is_none());
    let no_messages = parse_document(r#"{"model":"Baichuan2-53B"}"#).unwrap();
    assert!(baichuan_cli::decode_request(&no_messages).is_none());
    let empty = parse_document(r#"{"model":"Baichuan2-53B","messages":[]}"#).unwrap();
    let (model, messages) = baichuan_cli::decode_request(&empty).unwrap();
    assert_eq!(model, Model::Baichuan2_53B);
    assert!(messages.is_empty());
}

#[test]
fn a_call_without_an_answer_is_a_transport_error() {
    match baichuan_cli::conclude(baichuan_cli::SendOutcome::Failed("dns error".to_string())) {
        Err(ChatError::Transport(text)) => assert_eq!(text, "dns error"),
        other => panic!("{:?}", other),
    }
}

#[test]
fn an_answered_call_means_what_its_status_and_body_mean() {
    let answered = baichuan_cli::SendOutcome::Answered {
        status: 200,
        body: Ok(r#"{"code":0,"msg":"success"}"#.to_string()),
    };
    let response = baichuan_cli::conclude(answered).unwrap();
    assert_eq!(response.code, RespCode::Success);
    let refused = baichuan_cli::SendOutcome::Answered {
        status: 403,
        body: Ok(r#"{"code":0,"msg":"success"}"#.to_string()),
    };
    match baichuan_cli::conclude(refused) {
        Err(ChatError::Transport(text)) => assert_eq!(text, r#"{"code":0,"msg":"success"}"#),
        other => panic!("{:?}", other),
    }
}

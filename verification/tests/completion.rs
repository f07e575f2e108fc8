use writing_feedback::completion::{
    build_request, extract_feedback, has_usable_credential, interpret_response, transport_failure,
    CompletionError, ErrorKind, Malformation, DEFAULT_ENDPOINT, DEFAULT_MAX_TOKENS,
    PROTOCOL_VERSION, SYSTEM_PROMPT,
};
use writing_feedback::window::Message;

fn message(content: &str) -> Message {
    Message { role: "user".to_string(), content: content.to_string() }
}

fn malformed(flaw: Malformation) -> Result<String, CompletionError> {
    Err(CompletionError::MalformedResponse { flaw })
}

#[test]
fn the_defaults_are_those_of_the_service() {
    assert_eq!(DEFAULT_MAX_TOKENS, 1024);
    assert_eq!(DEFAULT_ENDPOINT, "https://api.anthropic.com/v1/messages");
    assert_eq!(PROTOCOL_VERSION, "2023-06-01");
    assert!(SYSTEM_PROMPT.starts_with("You are a robot that lives inside of a simple markdown text editor."));
    assert!(SYSTEM_PROMPT.contains("VERY BRIEF"));
}

#[test]
fn a_request_carries_what_was_given() {
    let messages = vec![message("first"), message("second")];
    let request =
        build_request(Some("secret"), messages.clone(), "be terse", "some-model", 1024).unwrap();
    assert_eq!(request.credential, "secret");
    assert_eq!(request.model, "some-model");
    assert_eq!(request.max_tokens, 1024);
    assert_eq!(request.system, "be terse");
    assert_eq!(request.messages, messages);
}

#[test]
fn no_request_without_a_credential() {
    let built = build_request(None, vec![message("first")], "be terse", "some-model", 1024);
    assert_eq!(built, Err(CompletionError::AuthError));
}

#[test]
fn no_request_with_a_blank_credential() {
    for key in ["", "   ", "\n\t"] {
        let built = build_request(Some(key), vec![], "be terse", "some-model", 1024);
        assert_eq!(built, Err(CompletionError::AuthError));
        assert!(!has_usable_credential(Some(key)));
    }
    assert!(!has_usable_credential(None));
    assert!(has_usable_credential(Some("k")));
}

#[test]
fn the_critique_is_the_text_of_the_first_content_block() {
    let body = r#"{"content":[{"text":"Good start."}]}"#;
    assert_eq!(interpret_response(200, body), Ok("Good start.".to_string()));
}

#[test]
fn other_fields_and_later_blocks_are_ignored() {
    let body = r#"{
        "id": "msg_1", "role": "assistant", "usage": {"input_tokens": 12, "output_tokens": 3.5},
        "content": [
            {"type": "text", "text": "Tighten the opening.", "extra": [1, 2, null]},
            {"type": "text", "text": "second block"}
        ],
        "stop_reason": null
    }"#;
    assert_eq!(interpret_response(200, body), Ok("Tighten the opening.".to_string()));
}

#[test]
fn escapes_in_the_critique_are_decoded() {
    let body = r#"{"content":[{"text":"line one\nsaid \"two\" é"}]}"#;
    assert_eq!(interpret_response(201, body), Ok("line one\nsaid \"two\" \u{e9}".to_string()));
}

#[test]
fn a_status_outside_2xx_is_an_http_error_with_the_body() {
    for status in [0u16, 100, 199, 300, 301, 401, 404, 429, 500, 529, u16::MAX] {
        let body = r#"{"content":[{"text":"never read"}]}"#;
        assert_eq!(
            interpret_response(status, body),
            Err(CompletionError::HttpError { status, message: body.to_string() })
        );
    }
}

#[test]
fn every_2xx_status_is_a_success() {
    for status in [200u16, 201, 204, 250, 299] {
        assert_eq!(
            interpret_response(status, r#"{"content":[{"text":"ok"}]}"#),
            Ok("ok".to_string())
        );
    }
}

#[test]
fn a_body_that_is_not_json_is_malformed() {
    for body in ["", "not json", "{", r#"{"content":[{"text":"x"}]} trailing"#, "[1,]"] {
        assert_eq!(interpret_response(200, body), malformed(Malformation::NotJson), "{:?}", body);
    }
}

#[test]
fn a_document_without_a_content_array_is_malformed() {
    for body in [
        "null",
        "42",
        r#""content""#,
        "[]",
        "{}",
        r#"{"text":"x"}"#,
        r#"{"content":null}"#,
        r#"{"content":"x"}"#,
        r#"{"content":{"text":"x"}}"#,
        r#"{"Content":[{"text":"x"}]}"#,
    ] {
        assert_eq!(interpret_response(200, body), malformed(Malformation::NoContent), "{:?}", body);
    }
}

#[test]
fn an_empty_content_array_is_malformed() {
    assert_eq!(interpret_response(200, r#"{"content":[]}"#), malformed(Malformation::EmptyContent));
}

#[test]
fn a_first_block_without_a_text_string_is_malformed() {
    for body in [
        r#"{"content":[{}]}"#,
        r#"{"content":["x"]}"#,
        r#"{"content":[null, {"text":"x"}]}"#,
        r#"{"content":[{"text":null}]}"#,
        r#"{"content":[{"text":7}]}"#,
        r#"{"content":[{"text":["x"]}]}"#,
        r#"{"content":[{"type":"tool_use"}, {"text":"x"}]}"#,
        r#"{"content":[[{"text":"x"}]]}"#,
    ] {
        assert_eq!(interpret_response(200, body), malformed(Malformation::NoText), "{:?}", body);
    }
}

#[test]
fn the_last_of_two_equal_keys_is_the_member() {
    let body = r#"{"content":[{"text":"first"}],"content":[{"text":"second"}]}"#;
    assert_eq!(interpret_response(200, body), Ok("second".to_string()));
}

#[test]
fn a_critique_is_found_in_a_document_built_by_hand() {
    let mut block = serde_json::Map::new();
    block.insert("text".to_string(), serde_json::Value::String("Good start.".to_string()));
    let mut document = serde_json::Map::new();
    document.insert(
        "content".to_string(),
        serde_json::Value::Array(vec![serde_json::Value::Object(block)]),
    );
    let document = serde_json::Value::Object(document);
    assert_eq!(extract_feedback(&document), Ok("Good start.".to_string()));
}

#[test]
fn each_missing_step_of_the_path_is_named() {
    let null = serde_json::Value::Null;
    assert_eq!(extract_feedback(&null), Err(Malformation::NoContent));

    let array = serde_json::Value::Array(vec![serde_json::Value::String("x".to_string())]);
    assert_eq!(extract_feedback(&array), Err(Malformation::NoContent));

    let mut document = serde_json::Map::new();
    document.insert("content".to_string(), serde_json::Value::Array(vec![]));
    assert_eq!(
        extract_feedback(&serde_json::Value::Object(document)),
        Err(Malformation::EmptyContent)
    );

    let mut block = serde_json::Map::new();
    block.insert("text".to_string(), serde_json::Value::Bool(true));
    let mut document = serde_json::Map::new();
    document.insert(
        "content".to_string(),
        serde_json::Value::Array(vec![serde_json::Value::Object(block)]),
    );
    assert_eq!(extract_feedback(&serde_json::Value::Object(document)), Err(Malformation::NoText));
}

#[test]
fn each_failure_has_its_kind() {
    assert_eq!(transport_failure("down".to_string()).kind(), ErrorKind::NetworkError);
    assert_eq!(
        CompletionError::HttpError { status: 500, message: "oops".to_string() }.kind(),
        ErrorKind::HttpError
    );
    assert_eq!(
        CompletionError::MalformedResponse { flaw: Malformation::NoText }.kind(),
        ErrorKind::MalformedResponse
    );
    assert_eq!(CompletionError::AuthError.kind(), ErrorKind::AuthError);
}

#[test]
fn each_failure_has_its_message() {
    assert_eq!(
        transport_failure("connection refused".to_string()),
        CompletionError::NetworkError { message: "connection refused".to_string() }
    );
    assert_eq!(transport_failure("connection refused".to_string()).message(), "connection refused");
    assert_eq!(
        CompletionError::HttpError { status: 500, message: "overloaded".to_string() }.message(),
        "overloaded"
    );
    assert_eq!(CompletionError::AuthError.message(), "no usable credential is configured");
    assert_eq!(Malformation::NotJson.describe(), "the response body is not JSON");
    assert_eq!(Malformation::NoContent.describe(), "the response has no array under `content`");
    assert_eq!(Malformation::EmptyContent.describe(), "the response's `content` is empty");
    assert_eq!(
        Malformation::NoText.describe(),
        "the first content block has no string under `text`"
    );
    for flaw in [
        Malformation::NotJson,
        Malformation::NoContent,
        Malformation::EmptyContent,
        Malformation::NoText,
    ] {
        assert_eq!(CompletionError::MalformedResponse { flaw }.message(), flaw.describe());
    }
}

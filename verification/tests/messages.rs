use telegram_api::bot::Bot;
use telegram_api::envelope::{envelope_payload, message_from_envelope};
use telegram_api::error::{RequestFailure, TelegramError};
use telegram_api::types::{Chat, Message};

fn bot() -> Bot {
    Bot::new("TOKEN".to_string()).expect("an HTTP client can be built")
}

fn sent(body: &str) -> Result<Message, TelegramError> {
    bot().send_message(Ok(body.as_bytes().to_vec()))
}

fn api_error(r: Result<Message, TelegramError>) -> String {
    match r {
        Err(TelegramError::ApiError(text)) => text,
        other => panic!("expected an API error, got {:?}", other),
    }
}

#[test]
fn send_refusal_carries_the_description() {
    assert_eq!(api_error(sent(r#"{"ok": false, "description": "boom"}"#)), "boom");
}

#[test]
fn send_refusal_without_description_carries_the_placeholder() {
    assert_eq!(api_error(sent(r#"{"ok": false}"#)), "Unknown API error");
    assert_eq!(api_error(sent(r#"{"ok": false, "description": ["x"]}"#)), "Unknown API error");
}

#[test]
fn sent_message_has_the_fields_of_the_answer() {
    let body = r#"{"ok": true, "result": {
        "message_id": 77,
        "from": {"id": 1, "first_name": "Bot", "last_name": "Mc", "username": "the_bot"},
        "chat": {"id": -42, "chat_type": "group", "title": "Friends", "username": "fr"},
        "text": "hello"
    }}"#;
    let message = sent(body).unwrap();
    assert_eq!(message.message_id, 77);
    let from = message.from.unwrap();
    assert_eq!(from.id, 1);
    assert_eq!(from.first_name, "Bot");
    assert_eq!(from.last_name.as_deref(), Some("Mc"));
    assert_eq!(from.username.as_deref(), Some("the_bot"));
    assert_eq!(message.chat.id, -42);
    assert_eq!(message.chat.chat_type, "group");
    assert_eq!(message.chat.title.as_deref(), Some("Friends"));
    assert_eq!(message.chat.username.as_deref(), Some("fr"));
    assert_eq!(message.text.as_deref(), Some("hello"));
}

#[test]
fn sent_message_with_only_required_fields() {
    let body = r#"{"result": {"message_id": 1, "chat": {"id": 2, "chat_type": "channel"}}}"#;
    let message = sent(body).unwrap();
    assert_eq!(message.message_id, 1);
    assert!(message.from.is_none());
    assert_eq!(message.chat.id, 2);
    assert_eq!(message.chat.chat_type, "channel");
    assert!(message.chat.title.is_none());
    assert!(message.chat.username.is_none());
    assert!(message.text.is_none());
}

#[test]
fn send_without_result_fails_to_parse() {
    assert_eq!(api_error(sent(r#"{"ok": true}"#)), "Failed to parse message response");
    assert_eq!(api_error(sent(r#"{}"#)), "Failed to parse message response");
}

#[test]
fn send_with_a_result_that_is_no_message_fails_to_parse() {
    for body in [
        r#"{"ok": true, "result": null}"#,
        r#"{"ok": true, "result": true}"#,
        r#"{"ok": true, "result": "sent"}"#,
        r#"{"ok": true, "result": []}"#,
        r#"{"ok": true, "result": {}}"#,
        r#"{"ok": true, "result": {"message_id": 1}}"#,
        r#"{"ok": true, "result": {"chat": {"id": 2, "chat_type": "private"}}}"#,
        r#"{"ok": true, "result": {"message_id": "1", "chat": {"id": 2, "chat_type": "private"}}}"#,
        r#"{"ok": true, "result": {"message_id": 1, "chat": {"id": 2}}}"#,
        r#"{"ok": true, "result": {"message_id": 1, "chat": {"id": 2, "chat_type": "private"}, "text": 5}}"#,
        r#"{"ok": true, "result": {"message_id": 1, "chat": {"id": 2, "chat_type": "private"}, "from": {"id": 3}}}"#,
    ] {
        assert_eq!(api_error(sent(body)), "Failed to parse message response", "{}", body);
    }
}

#[test]
fn send_answer_that_is_no_object_fails_to_parse() {
    assert_eq!(api_error(sent("[1, 2]")), "Failed to parse message response");
    assert_eq!(api_error(sent("true")), "Failed to parse message response");
}

#[test]
fn send_body_that_is_no_json_is_a_request_error() {
    match sent("Bad Gateway") {
        Err(TelegramError::RequestError(RequestFailure::Json(_))) => {}
        other => panic!("expected a request error, got {:?}", other),
    }
}

#[test]
fn send_failed_exchange_is_a_request_error() {
    let b = bot();
    let failure = b.client().get("::").build().unwrap_err();
    match b.send_message(Err(failure)) {
        Err(TelegramError::RequestError(RequestFailure::Http(_))) => {}
        other => panic!("expected a request error, got {:?}", other),
    }
}

#[test]
fn the_two_operations_differ_only_on_an_unusable_result() {
    let b = bot();
    let body = br#"{"ok": true, "result": "nothing"}"#.to_vec();
    assert!(b.get_updates(Ok(body.clone())).unwrap().is_empty());
    assert_eq!(api_error(b.send_message(Ok(body))), "Failed to parse message response");
}

#[test]
fn message_from_envelope_reads_a_parsed_document() {
    let envelope: serde_json::Value = serde_json::from_str(
        r#"{"ok": true, "result": {"message_id": 8, "chat": {"id": 2, "chat_type": "private"}, "text": ""}}"#,
    )
    .unwrap();
    let message = message_from_envelope(&envelope).unwrap();
    assert_eq!(message.message_id, 8);
    assert_eq!(message.text.as_deref(), Some(""));
}

#[test]
fn envelope_payload_reads_any_shape() {
    let envelope: serde_json::Value =
        serde_json::from_str(r#"{"ok": true, "result": {"id": 2, "chat_type": "private"}}"#).unwrap();
    let chat = envelope_payload::<Chat>(&envelope).unwrap().unwrap();
    assert_eq!(chat.id, 2);
    assert!(envelope_payload::<Message>(&envelope).unwrap().is_none());
    assert!(envelope_payload::<i64>(&envelope).unwrap().is_none());
    let number: serde_json::Value = serde_json::from_str(r#"{"result": 12}"#).unwrap();
    assert_eq!(envelope_payload::<i64>(&number).unwrap(), Some(12));
    let refused: serde_json::Value = serde_json::from_str(r#"{"ok": false, "result": 12}"#).unwrap();
    assert!(matches!(envelope_payload::<i64>(&refused), Err(TelegramError::ApiError(_))));
}

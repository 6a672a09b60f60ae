use telegram_api::decode::FromJson;
use telegram_api::types::{Chat, Message, Update, User};

fn json(text: &str) -> serde_json::Value {
    serde_json::from_str(text).unwrap()
}

#[test]
fn integer_reads_integers_that_fit() {
    assert_eq!(i64::from_value(&json("0")), Some(0));
    assert_eq!(i64::from_value(&json("-5")), Some(-5));
    assert_eq!(i64::from_value(&json("9223372036854775807")), Some(i64::MAX));
    assert_eq!(i64::from_value(&json("-9223372036854775808")), Some(i64::MIN));
}

#[test]
fn integer_rejects_everything_else() {
    assert_eq!(i64::from_value(&json("9223372036854775808")), None);
    assert_eq!(i64::from_value(&json("1.0")), None);
    assert_eq!(i64::from_value(&json("1e3")), None);
    assert_eq!(i64::from_value(&json("\"1\"")), None);
    assert_eq!(i64::from_value(&json("null")), None);
    assert_eq!(i64::from_value(&json("true")), None);
    assert_eq!(i64::from_value(&json("[1]")), None);
    assert_eq!(i64::from_absent(), None);
}

#[test]
fn string_reads_strings_only() {
    assert_eq!(String::from_value(&json("\"a\\nb\"")), Some("a\nb".to_string()));
    assert_eq!(String::from_value(&json("\"\"")), Some(String::new()));
    assert_eq!(String::from_value(&json("1")), None);
    assert_eq!(String::from_value(&json("null")), None);
    assert_eq!(String::from_value(&json("[\"a\"]")), None);
    assert_eq!(String::from_absent(), None);
}

#[test]
fn option_is_unset_for_null_and_for_a_missing_member() {
    assert_eq!(Option::<i64>::from_value(&json("null")), Some(None));
    assert_eq!(Option::<i64>::from_value(&json("3")), Some(Some(3)));
    assert_eq!(Option::<i64>::from_value(&json("\"3\"")), None);
    assert_eq!(Option::<String>::from_absent(), Some(None));
}

#[test]
fn sequence_reads_every_element_in_order() {
    assert_eq!(Vec::<i64>::from_value(&json("[3, 1, 2]")), Some(vec![3, 1, 2]));
    assert_eq!(Vec::<i64>::from_value(&json("[]")), Some(vec![]));
    assert_eq!(Vec::<i64>::from_value(&json("[3, \"1\", 2]")), None);
    assert_eq!(Vec::<i64>::from_value(&json("{}")), None);
    assert_eq!(Vec::<i64>::from_value(&json("3")), None);
    assert_eq!(
        Vec::<Option<String>>::from_value(&json("[\"a\", null]")),
        Some(vec![Some("a".to_string()), None])
    );
    assert_eq!(Vec::<i64>::from_absent(), None);
}

#[test]
fn user_is_read_by_field_name() {
    let user = User::from_value(&json(
        r#"{"username": "u", "id": 5, "first_name": "Ann", "last_name": null, "is_bot": false}"#,
    ))
    .unwrap();
    assert_eq!(user.id, 5);
    assert_eq!(user.first_name, "Ann");
    assert_eq!(user.last_name, None);
    assert_eq!(user.username.as_deref(), Some("u"));
}

#[test]
fn user_needs_its_required_fields() {
    assert!(User::from_value(&json(r#"{"id": 5}"#)).is_none());
    assert!(User::from_value(&json(r#"{"first_name": "Ann"}"#)).is_none());
    assert!(User::from_value(&json(r#"{"id": null, "first_name": "Ann"}"#)).is_none());
    assert!(User::from_value(&json(r#"{"id": 5, "first_name": null}"#)).is_none());
    assert!(User::from_value(&json(r#"{"id": 5, "first_name": "Ann", "username": 1}"#)).is_none());
    assert!(User::from_value(&json("5")).is_none());
    assert!(User::from_value(&json("null")).is_none());
    assert!(User::from_absent().is_none());
}

#[test]
fn chat_reads_its_kind_under_its_own_name() {
    let chat = Chat::from_value(&json(r#"{"id": 1, "chat_type": "supergroup", "title": "T"}"#)).unwrap();
    assert_eq!(chat.id, 1);
    assert_eq!(chat.chat_type, "supergroup");
    assert_eq!(chat.title.as_deref(), Some("T"));
    assert_eq!(chat.username, None);
    assert!(Chat::from_value(&json(r#"{"id": 1, "type": "supergroup"}"#)).is_none());
    assert!(Chat::from_absent().is_none());
}

#[test]
fn chat_kind_is_an_open_tag() {
    let chat = Chat::from_value(&json(r#"{"id": 1, "chat_type": "something new"}"#)).unwrap();
    assert_eq!(chat.chat_type, "something new");
}

#[test]
fn record_is_read_from_an_array_of_exactly_its_fields() {
    let user = User::from_value(&json(r#"[5, "Ann", null, "u"]"#)).unwrap();
    assert_eq!(user.id, 5);
    assert_eq!(user.first_name, "Ann");
    assert_eq!(user.last_name, None);
    assert_eq!(user.username.as_deref(), Some("u"));
    assert!(User::from_value(&json(r#"[5, "Ann", null]"#)).is_none());
    assert!(User::from_value(&json(r#"[5, "Ann", null, "u", 1]"#)).is_none());
    assert!(User::from_value(&json(r#"["Ann", 5, null, "u"]"#)).is_none());
    assert!(User::from_value(&json("[]")).is_none());
    let update = Update::from_value(&json(r#"[3, null]"#)).unwrap();
    assert_eq!(update.update_id, 3);
    assert!(update.message.is_none());
    let update = Update::from_value(&json(r#"[3, [4, null, [9, "private", null, null], "hi"]]"#)).unwrap();
    let message = update.message.unwrap();
    assert_eq!(message.message_id, 4);
    assert_eq!(message.chat.id, 9);
    assert_eq!(message.text.as_deref(), Some("hi"));
}

#[test]
fn message_reads_nested_records() {
    let message = Message::from_value(&json(
        r#"{"message_id": 1, "from": {"id": 2, "first_name": "F"}, "chat": {"id": 3, "chat_type": "private"}, "date": 0}"#,
    ))
    .unwrap();
    assert_eq!(message.message_id, 1);
    assert_eq!(message.from.as_ref().unwrap().id, 2);
    assert_eq!(message.from.as_ref().unwrap().first_name, "F");
    assert_eq!(message.chat.id, 3);
    assert!(message.text.is_none());
    assert!(Message::from_absent().is_none());
}

#[test]
fn message_with_a_null_sender_has_none() {
    let message = Message::from_value(&json(
        r#"{"message_id": 1, "from": null, "chat": {"id": 3, "chat_type": "private"}, "text": null}"#,
    ))
    .unwrap();
    assert!(message.from.is_none());
    assert!(message.text.is_none());
}

#[test]
fn message_needs_a_chat() {
    assert!(Message::from_value(&json(r#"{"message_id": 1, "chat": null}"#)).is_none());
    assert!(Message::from_value(&json(r#"{"message_id": 1, "chat": {"id": 3}}"#)).is_none());
}

#[test]
fn update_reads_an_optional_message() {
    let update = Update::from_value(&json(r#"{"update_id": 10}"#)).unwrap();
    assert_eq!(update.update_id, 10);
    assert!(update.message.is_none());
    let update = Update::from_value(&json(r#"{"update_id": 10, "message": null}"#)).unwrap();
    assert!(update.message.is_none());
    let update = Update::from_value(&json(
        r#"{"update_id": 10, "message": {"message_id": 1, "chat": {"id": 3, "chat_type": "private"}}}"#,
    ))
    .unwrap();
    assert_eq!(update.message.unwrap().chat.id, 3);
    assert!(Update::from_value(&json(r#"{"update_id": 10, "message": {}}"#)).is_none());
    assert!(Update::from_value(&json(r#"{"message": null}"#)).is_none());
    assert!(Update::from_absent().is_none());
}

use synology_chat::adapter::SynologyChatAdapter;
use synology_chat::json::FieldValue;
use synology_chat::payload::{form_value, NotJson, Payload, PayloadError, PayloadSource};
use synology_chat::types::ChannelType;

fn json(text: &str) -> Payload {
    Payload::from_json(text).unwrap()
}

fn pair(name: &str, value: &str) -> (String, String) {
    (name.to_string(), value.to_string())
}

#[test]
fn test_synology_chat_adapter_creation() {
    let adapter = SynologyChatAdapter::new(
        "test-token".to_string(),
        "https://nas.local:5001/webapi/entry.cgi?api=SYNO.Chat.External&method=incoming&version=2&token=%22abc%22".to_string(),
        8444,
    );
    assert_eq!(adapter.name(), "synology_chat");
    assert_eq!(
        adapter.channel_type(),
        ChannelType::Custom("synology_chat".to_string())
    );
    assert_eq!(adapter.listen_port(), 8444);
    assert_eq!(
        adapter.incoming_webhook_url(),
        "https://nas.local:5001/webapi/entry.cgi?api=SYNO.Chat.External&method=incoming&version=2&token=%22abc%22"
    );
}

#[test]
fn test_parse_outgoing_payload_full() {
    let payload = json(
        r#"{
            "token": "outgoing-token",
            "channel_id": 1,
            "channel_name": "general",
            "user_id": 42,
            "username": "alice",
            "post_id": "123456",
            "timestamp": "1700000000",
            "text": "Hello bot!"
        }"#,
    );
    let result = SynologyChatAdapter::parse_outgoing_payload(&payload);
    assert!(result.is_some());
    let (text, user_id, username, post_id, channel_name) = result.unwrap();
    assert_eq!(text, "Hello bot!");
    assert_eq!(user_id, "42");
    assert_eq!(username, "alice");
    assert_eq!(post_id, "123456");
    assert_eq!(channel_name, "general");
}

#[test]
fn test_parse_outgoing_payload_minimal() {
    let payload = json(r#"{ "token": "tok", "text": "Just a message" }"#);
    let result = SynologyChatAdapter::parse_outgoing_payload(&payload);
    assert!(result.is_some());
    let (text, user_id, username, post_id, channel_name) = result.unwrap();
    assert_eq!(text, "Just a message");
    assert_eq!(user_id, "unknown");
    assert_eq!(username, "Synology User");
    assert_eq!(post_id, "0");
    assert_eq!(channel_name, "");
}

#[test]
fn test_parse_outgoing_payload_empty_text() {
    let payload = json(r#"{ "token": "tok", "text": "" }"#);
    assert!(SynologyChatAdapter::parse_outgoing_payload(&payload).is_none());
}

#[test]
fn test_parse_outgoing_payload_no_text() {
    let payload = json(r#"{ "token": "tok", "user_id": 1 }"#);
    assert!(SynologyChatAdapter::parse_outgoing_payload(&payload).is_none());
}

#[test]
fn test_parse_outgoing_payload_string_user_id() {
    let payload = json(r#"{ "token": "tok", "text": "hi", "user_id": "user-str-123" }"#);
    let result = SynologyChatAdapter::parse_outgoing_payload(&payload);
    assert!(result.is_some());
    let (_, user_id, _, _, _) = result.unwrap();
    assert_eq!(user_id, "user-str-123");
}

#[test]
fn text_that_is_no_string_is_no_text() {
    for text in ["1", "null", "true", "[\"hi\"]", "{\"a\":\"hi\"}"] {
        let payload = json(&format!("{{\"text\":{}}}", text));
        assert!(SynologyChatAdapter::parse_outgoing_payload(&payload).is_none());
    }
}

#[test]
fn user_id_of_every_kind() {
    for (value, expected) in [
        ("0", "0"),
        ("18446744073709551615", "18446744073709551615"),
        ("18446744073709551616", "unknown"),
        ("-1", "unknown"),
        ("1.5", "unknown"),
        ("null", "unknown"),
        ("[1]", "unknown"),
        ("\"7\"", "7"),
        ("\"\"", ""),
    ] {
        let payload = json(&format!("{{\"text\":\"hi\",\"user_id\":{}}}", value));
        let post = SynologyChatAdapter::parse_outgoing_payload(&payload).unwrap();
        assert_eq!(post.1, expected, "{}", value);
    }
}

#[test]
fn numeric_post_id_becomes_zero() {
    let payload = json(r#"{ "text": "hi", "post_id": 77, "username": 5, "channel_name": 6 }"#);
    let post = SynologyChatAdapter::parse_outgoing_payload(&payload).unwrap();
    assert_eq!(post.2, "Synology User");
    assert_eq!(post.3, "0");
    assert_eq!(post.4, "");
}

#[test]
fn members_read_back() {
    let payload = Payload::from_members(vec![
        ("a".to_string(), FieldValue::Text("first".to_string())),
        ("b".to_string(), FieldValue::Number(u64::MAX)),
        ("a".to_string(), FieldValue::Text("second".to_string())),
    ]);
    assert_eq!(payload.text("a"), Some("second".to_string()));
    assert_eq!(payload.number("a"), None);
    assert_eq!(payload.text("b"), None);
    assert_eq!(payload.number("b"), Some(u64::MAX));
    assert_eq!(payload.text("c"), None);
    assert_eq!(payload.number("c"), None);
}

#[test]
fn json_that_is_no_object_has_no_members() {
    for text in ["[]", "42", "\"text\"", "null"] {
        let payload = json(text);
        assert_eq!(payload.text("text"), None);
        assert_eq!(payload.number("text"), None);
    }
}

#[test]
fn text_that_is_no_json() {
    assert!(matches!(Payload::from_json("{"), Err(NotJson)));
    assert!(matches!(Payload::from_json(""), Err(NotJson)));
    assert!(matches!(Payload::from_json_bytes(b"{\"a\":"), Err(NotJson)));
    assert!(matches!(Payload::from_json_bytes(b""), Err(NotJson)));
    assert!(matches!(Payload::from_json_bytes(b"&"), Err(NotJson)));
    let payload = Payload::from_json_bytes(b"{\"a\":\"x\"}").unwrap();
    assert_eq!(payload.text("a"), Some("x".to_string()));
}

#[test]
fn form_values() {
    assert_eq!(form_value("hi"), FieldValue::Text("hi".to_string()));
    assert_eq!(form_value("12"), FieldValue::Number(12));
    assert_eq!(form_value("+12"), FieldValue::Number(12));
    assert_eq!(form_value("-12"), FieldValue::Text("-12".to_string()));
    assert_eq!(form_value(""), FieldValue::Text(String::new()));
}

#[test]
fn source_is_the_first_payload_field() {
    let source = PayloadSource::of_pairs(vec![
        pair("token", "t"),
        pair("payload", "one"),
        pair("payload", "two"),
    ]);
    assert_eq!(source, PayloadSource::Json("one".to_string()));
    let pairs = vec![pair("Payload", "one"), pair("text", "two")];
    assert_eq!(
        PayloadSource::of_pairs(vec![pair("Payload", "one"), pair("text", "two")]),
        PayloadSource::Body(pairs)
    );
    assert_eq!(PayloadSource::of_pairs(vec![]), PayloadSource::Body(vec![]));
}

#[test]
fn unnamed_payload_is_json_before_fields() {
    let pairs = vec![pair("a", "field")];
    let payload = Payload::from_unnamed(Payload::from_json("{\"a\":\"json\"}"), &pairs).unwrap();
    assert_eq!(payload.text("a"), Some("json".to_string()));
    let payload = Payload::from_unnamed(Err(NotJson), &pairs).unwrap();
    assert_eq!(payload.text("a"), Some("field".to_string()));
    assert!(matches!(
        Payload::from_unnamed(Err(NotJson), &vec![]),
        Err(PayloadError::Missing)
    ));
}

#[test]
fn json_reads_the_same_as_text_and_as_bytes() {
    for text in ["{\"a\":\"\u{e9}\\u00e9\"}", "{\"a\":\"\\ud83d\\ude00\"}", "{\"a\":\"\\ud800\"}", "[", "1"] {
        let as_text = Payload::from_json(text).map(|payload| payload.text("a"));
        let as_bytes = Payload::from_json_bytes(text.as_bytes()).map(|payload| payload.text("a"));
        assert_eq!(as_text, as_bytes, "{}", text);
    }
}

#[test]
fn last_form_field_counts() {
    let payload = Payload::from_pairs(&vec![
        pair("text", "1"),
        pair("text", "hello"),
        pair("user_id", "bob"),
        pair("user_id", "007"),
    ]);
    assert_eq!(payload.text("text"), Some("hello".to_string()));
    assert_eq!(payload.number("user_id"), Some(7));
    assert_eq!(payload.text("user_id"), None);
}

#[test]
fn bodies() {
    let payload = Payload::from_body(b"a=1+%C3%A9&b=2").unwrap();
    assert_eq!(payload.text("a"), Some("1 \u{e9}".to_string()));
    assert_eq!(payload.number("b"), Some(2));
    let payload = Payload::from_body(b"x=1&payload=%7B%22a%22%3A3%7D").unwrap();
    assert_eq!(payload.number("a"), Some(3));
    assert_eq!(payload.number("x"), None);
    let payload = Payload::from_body(b"{\"a\":\"1\"}").unwrap();
    assert_eq!(payload.text("a"), Some("1".to_string()));
    assert!(matches!(Payload::from_body(b"payload=%7B"), Err(PayloadError::InvalidJson)));
    assert!(matches!(Payload::from_body(b"payload"), Err(PayloadError::InvalidJson)));
    assert!(matches!(Payload::from_body(b""), Err(PayloadError::Missing)));
    assert!(matches!(Payload::from_body(b"&&"), Err(PayloadError::Missing)));
}

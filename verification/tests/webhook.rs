use synology_chat::adapter::{
    collect_metadata, parse_command, parse_content, SynologyChatAdapter, WebhookReply,
};
use synology_chat::json::FieldValue;
use synology_chat::payload::Payload;
use synology_chat::types::{ChannelContent, ChannelMessage, ChannelType, Timestamp};

const AT: Timestamp = Timestamp { seconds: 1_700_000_000, nanos: 5 };

fn adapter(token: &str) -> SynologyChatAdapter {
    SynologyChatAdapter::new(token.to_string(), "https://nas.local/hook".to_string(), 8444)
}

fn reply(token: &str, body: &[u8]) -> (WebhookReply, bool) {
    let outcome = adapter(token).handle_body(body, AT);
    (outcome.reply, outcome.message.is_some())
}

fn message(body: &[u8]) -> ChannelMessage {
    let outcome = adapter("tok").handle_body(body, AT);
    assert_eq!(outcome.reply, WebhookReply::Accepted);
    outcome.message.unwrap()
}

fn command(name: &str, args: &[&str]) -> ChannelContent {
    ChannelContent::Command {
        name: name.to_string(),
        args: args.iter().map(|arg| arg.to_string()).collect(),
    }
}

#[test]
fn replies_have_status_and_text() {
    for (reply, status, text) in [
        (WebhookReply::Accepted, 200, "ok"),
        (WebhookReply::InvalidPayload, 400, "Invalid payload JSON"),
        (WebhookReply::MissingPayload, 400, "Missing payload field"),
        (WebhookReply::InvalidToken, 403, "Forbidden: invalid token"),
    ] {
        assert_eq!(reply.status(), status);
        assert_eq!(reply.text(), text);
    }
}

#[test]
fn json_payload_becomes_message() {
    // {"token":"tok","text":"Hello bot!","user_id":42,"username":"alice",
    //  "post_id":"123456","channel_name":"general","channel_id":1}
    let body = b"payload=%7B%22token%22%3A%22tok%22%2C%22text%22%3A%22Hello+bot%21%22%2C%22user_id%22%3A42%2C%22username%22%3A%22alice%22%2C%22post_id%22%3A%22123456%22%2C%22channel_name%22%3A%22general%22%2C%22channel_id%22%3A1%7D";
    let message = message(body);
    assert_eq!(message.channel, ChannelType::Custom("synology_chat".to_string()));
    assert_eq!(message.platform_message_id, "syno-123456");
    assert_eq!(message.sender.platform_id, "42");
    assert_eq!(message.sender.display_name, "alice");
    assert_eq!(message.sender.openfang_user, None);
    assert_eq!(message.content, ChannelContent::Text("[alice]: Hello bot!".to_string()));
    assert_eq!(message.target_agent, None);
    assert_eq!(message.timestamp, AT);
    assert!(message.is_group);
    assert_eq!(message.thread_id, None);
    assert_eq!(message.metadata.len(), 2);
    assert_eq!(
        message.metadata.get("channel_name"),
        Some(&FieldValue::Text("general".to_string()))
    );
    assert_eq!(message.metadata.get("channel_id"), Some(&FieldValue::Number(1)));
}

#[test]
fn form_fields_become_message() {
    let message = message(b"token=tok&text=hi+there&user_id=1&username=bob&post_id=99&channel_id=3");
    assert_eq!(message.platform_message_id, "syno-0");
    assert_eq!(message.sender.platform_id, "1");
    assert_eq!(message.content, ChannelContent::Text("[bob]: hi there".to_string()));
    assert_eq!(message.metadata.len(), 1);
    assert_eq!(message.metadata.get("channel_id"), Some(&FieldValue::Number(3)));
}

#[test]
fn wrong_or_missing_token_is_refused() {
    for body in [
        &b"token=other&text=hi"[..],
        b"text=hi",
        b"token=tok+&text=hi",
        b"payload=%7B%22text%22%3A%22hi%22%7D",
        b"payload=%7B%22token%22%3A5%2C%22text%22%3A%22hi%22%7D",
        b"payload=%5B%5D",
        b"payload=42",
    ] {
        assert_eq!(reply("tok", body), (WebhookReply::InvalidToken, false));
    }
}

#[test]
fn empty_token_matches_missing_token() {
    assert_eq!(reply("", b"text=hi"), (WebhookReply::Accepted, true));
    assert_eq!(reply("", b"payload=%5B%5D"), (WebhookReply::Accepted, false));
}

#[test]
fn numeric_token_is_refused_in_form_and_taken_in_json() {
    assert_eq!(reply("123", b"token=123&text=hi"), (WebhookReply::InvalidToken, false));
    assert_eq!(
        reply("123", b"payload=%7B%22token%22%3A%22123%22%2C%22text%22%3A%22hi%22%7D"),
        (WebhookReply::Accepted, true)
    );
}

#[test]
fn accepted_without_text_leaves_no_message() {
    assert_eq!(reply("tok", b"token=tok"), (WebhookReply::Accepted, false));
    assert_eq!(reply("tok", b"token=tok&text="), (WebhookReply::Accepted, false));
    assert_eq!(reply("tok", b"token=tok&text=2024"), (WebhookReply::Accepted, false));
}

#[test]
fn invalid_payload_is_refused() {
    assert_eq!(reply("tok", b"payload=%7B"), (WebhookReply::InvalidPayload, false));
    assert_eq!(reply("tok", b"payload=&token=tok&text=hi"), (WebhookReply::InvalidPayload, false));
}

#[test]
fn missing_payload_is_refused() {
    assert_eq!(reply("tok", b""), (WebhookReply::MissingPayload, false));
    assert_eq!(reply("tok", b"&&&"), (WebhookReply::MissingPayload, false));
    assert_eq!(reply("", b"&"), (WebhookReply::MissingPayload, false));
}

#[test]
fn bare_json_becomes_message() {
    let outcome = adapter("tok").handle_webhook(b"{\"token\":\"tok\",\"text\":\"hi\"}");
    assert_eq!(outcome.reply, WebhookReply::Accepted);
    assert_eq!(outcome.reply.status(), 200);
    assert_eq!(outcome.reply.text(), "ok");
    let hi = outcome.message.unwrap();
    assert_eq!(hi.content, ChannelContent::Text("[Synology User]: hi".to_string()));
    let full = message(
        b" {\"token\": \"tok\", \"text\": \"a=1&b=2\", \"user_id\": 42, \"username\": \"alice\"}",
    );
    assert_eq!(full.content, ChannelContent::Text("[alice]: a=1&b=2".to_string()));
    assert_eq!(full.sender.platform_id, "42");
}

#[test]
fn bare_json_needs_the_token() {
    assert_eq!(
        reply("tok", b"{\"token\":\"other\",\"text\":\"hi\"}"),
        (WebhookReply::InvalidToken, false)
    );
    assert_eq!(reply("tok", b"{\"text\":\"hi\"}"), (WebhookReply::InvalidToken, false));
    assert_eq!(reply("tok", b"{\"token\":\"tok\"}"), (WebhookReply::Accepted, false));
    assert_eq!(reply("123", b"{\"token\":\"123\",\"text\":\"hi\"}"), (WebhookReply::Accepted, true));
}

#[test]
fn broken_json_is_taken_for_a_form() {
    assert_eq!(
        reply("tok", b"{\"token\":\"tok\",\"text\":\"hi\""),
        (WebhookReply::InvalidToken, false)
    );
}

#[test]
fn webhook_stamps_the_current_time() {
    let outcome = adapter("tok").handle_webhook(b"token=tok&text=hi");
    assert_eq!(outcome.reply, WebhookReply::Accepted);
    let message = outcome.message.unwrap();
    assert_eq!(message.content, ChannelContent::Text("[Synology User]: hi".to_string()));
    assert!(message.timestamp.seconds > 1_600_000_000);
    assert!(message.timestamp.nanos < 1_000_000_000);
    let outcome = adapter("tok").handle_webhook(b"");
    assert_eq!(outcome.reply, WebhookReply::MissingPayload);
    assert!(outcome.message.is_none());
}

#[test]
fn only_the_timestamp_depends_on_the_time() {
    let later = Timestamp { seconds: 1, nanos: 2 };
    let payload = Payload::from_json("{\"token\":\"tok\",\"text\":\"hi\"}").unwrap();
    let first = adapter("tok").handle_payload(&payload, AT).message.unwrap();
    let second = adapter("tok").handle_payload(&payload, later).message.unwrap();
    assert_eq!(first.timestamp, AT);
    assert_eq!(second.timestamp, later);
    assert_eq!(first.content, second.content);
    assert_eq!(first.sender, second.sender);
    assert_eq!(first.platform_message_id, second.platform_message_id);
}

#[test]
fn commands() {
    assert_eq!(parse_command("/help"), command("help", &[]));
    assert_eq!(parse_command("/help "), command("help", &[]));
    assert_eq!(parse_command("//say  a\tb\u{3000}c "), command("say", &["a", "b", "c"]));
    assert_eq!(parse_command("/"), command("", &[]));
    assert_eq!(parse_command("/ a"), command("", &["a"]));
    assert_eq!(parse_command("/a/b c"), command("a/b", &["c"]));
    assert_eq!(parse_command("/tab\tx y"), command("tab\tx", &["y"]));
}

#[test]
fn contents() {
    assert_eq!(parse_content("bob", "/do it"), command("do", &["it"]));
    assert_eq!(
        parse_content("bob", " /do it"),
        ChannelContent::Text("[bob]:  /do it".to_string())
    );
    assert_eq!(parse_content("", ""), ChannelContent::Text("[]: ".to_string()));
}

#[test]
fn metadata_has_what_is_given() {
    assert!(collect_metadata(String::new(), None).is_empty());
    let metadata = collect_metadata("c".to_string(), None);
    assert_eq!(metadata.len(), 1);
    assert_eq!(metadata.get("channel_name"), Some(&FieldValue::Text("c".to_string())));
    let metadata = collect_metadata(String::new(), Some(0));
    assert_eq!(metadata.len(), 1);
    assert_eq!(metadata.get("channel_id"), Some(&FieldValue::Number(0)));
}

use synology_chat::adapter::SynologyChatAdapter;
use synology_chat::payload::{Payload, PayloadError};
use synology_chat::send::{
    encode_chunk, encode_payload, outgoing_text, rejection_message, split_message, PostRequest,
    Reaction, SendSession, SendStep, CHUNK_PAUSE_MILLIS, MAX_MESSAGE_LEN,
};
use synology_chat::types::{ChannelContent, ChannelUser};

const URL: &str = "http://x/hook";

fn text_session(text: &str) -> SendSession {
    SendSession::new(URL.to_string(), ChannelContent::Text(text.to_string()))
}

fn next_body(session: &SendSession) -> String {
    match session.next_step() {
        SendStep::Post(request) => {
            assert_eq!(request.url, URL);
            assert_eq!(request.content_type, "application/x-www-form-urlencoded");
            request.body
        }
        SendStep::Finished | SendStep::Failed => panic!("nothing left to post"),
    }
}

#[test]
fn limits() {
    assert_eq!(MAX_MESSAGE_LEN, 65535);
    assert_eq!(CHUNK_PAUSE_MILLIS, 200);
}

#[test]
fn only_text_can_be_sent() {
    assert_eq!(outgoing_text(ChannelContent::Text("hi".to_string())), "hi");
    let command = ChannelContent::Command { name: "x".to_string(), args: vec![] };
    assert_eq!(outgoing_text(command), "(Unsupported content type)");
}

#[test]
fn chunk_is_encoded() {
    assert_eq!(encode_chunk("hi there"), "payload=%7B%22text%22%3A%22hi+there%22%7D");
    assert_eq!(encode_chunk(""), "payload=%7B%22text%22%3A%22%22%7D");
    assert_eq!(
        encode_chunk("a&b=\"\n"),
        "payload=%7B%22text%22%3A%22a%26b%3D%5C%22%5Cn%22%7D"
    );
}

#[test]
fn every_ascii_character_is_encoded_as_stated() {
    for byte in 0u8..128 {
        let c = byte as char;
        let json = match c {
            '"' => "\\\"".to_string(),
            '\\' => "\\\\".to_string(),
            '\u{8}' => "\\b".to_string(),
            '\t' => "\\t".to_string(),
            '\n' => "\\n".to_string(),
            '\u{c}' => "\\f".to_string(),
            '\r' => "\\r".to_string(),
            c if byte < 32 => format!("\\u{:04x}", c as u32),
            c => c.to_string(),
        };
        let mut expected = String::from("payload=%7B%22text%22%3A%22");
        for escaped in json.bytes() {
            match escaped {
                b'a'..=b'z' | b'A'..=b'Z' | b'0'..=b'9' | b'*' | b'-' | b'.' | b'_' => {
                    expected.push(escaped as char)
                }
                b' ' => expected.push('+'),
                _ => expected.push_str(&format!("%{:02X}", escaped)),
            }
        }
        expected.push_str("%22%7D");
        assert_eq!(encode_chunk(&c.to_string()), expected, "{:?}", c);
    }
    assert_eq!(encode_chunk("\u{e9}\u{7f}"), "payload=%7B%22text%22%3A%22%C3%A9%7F%22%7D");
}

#[test]
fn chunk_reads_back() {
    for chunk in ["", "hi", "a&b=c+d%20", "\"\\\n\t\u{0}\u{1f}", "\u{e9}\u{2028}\u{1f600}"] {
        let payload = Payload::from_body(encode_chunk(chunk).as_bytes()).unwrap();
        assert_eq!(payload.text("text"), Some(chunk.to_string()));
        assert_eq!(payload.text("token"), None);
    }
}

#[test]
fn payload_reads_back() {
    let body = encode_payload("{\"token\": \"t&t\", \"user_id\": 8}");
    let payload = Payload::from_body(body.as_bytes()).unwrap();
    assert_eq!(payload.text("token"), Some("t&t".to_string()));
    assert_eq!(payload.number("user_id"), Some(8));
    let body = encode_payload("no json");
    assert!(matches!(Payload::from_body(body.as_bytes()), Err(PayloadError::InvalidJson)));
}

#[test]
fn text_is_split() {
    assert_eq!(split_message("", 3), vec![""]);
    assert_eq!(split_message("abc", 3), vec!["abc"]);
    assert_eq!(split_message("abcd", 3), vec!["abc", "d"]);
    assert_eq!(split_message("abcdef", 3), vec!["abc", "def"]);
    assert_eq!(split_message("\u{e9}\u{1f600}x", 1), vec!["\u{e9}", "\u{1f600}", "x"]);
    let long = "y".repeat(2 * MAX_MESSAGE_LEN + 1);
    let chunks = split_message(&long, MAX_MESSAGE_LEN);
    assert_eq!(chunks.len(), 3);
    assert_eq!(chunks[2], "y");
    assert_eq!(chunks.concat(), long);
}

#[test]
fn short_text_is_posted_once() {
    let mut session = text_session("hi");
    assert_eq!(next_body(&session), encode_chunk("hi"));
    assert_eq!(session.on_response(200), Reaction::Continue);
    assert_eq!(session.next_step(), SendStep::Finished);
}

#[test]
fn long_text_is_posted_in_chunks_with_pauses() {
    let first = "a".repeat(MAX_MESSAGE_LEN);
    let mut session = text_session(&format!("{}b", first));
    assert_eq!(next_body(&session), encode_chunk(&first));
    assert_eq!(session.on_response(299), Reaction::Pause { millis: 200 });
    assert_eq!(next_body(&session), encode_chunk("b"));
    assert_eq!(session.on_response(204), Reaction::Pause { millis: 200 });
    assert_eq!(session.next_step(), SendStep::Finished);
}

#[test]
fn chunks_can_be_given() {
    let mut session = SendSession::from_chunks(URL.to_string(), vec!["one\n".to_string(), "two".to_string()]);
    assert_eq!(next_body(&session), encode_chunk("one\n"));
    assert_eq!(session.on_response(200), Reaction::Pause { millis: 200 });
    assert_eq!(next_body(&session), encode_chunk("two"));
    assert_eq!(session.on_response(500), Reaction::GiveUp);
    assert_eq!(session.next_step(), SendStep::Failed);
    let session = SendSession::from_chunks(URL.to_string(), vec![]);
    assert_eq!(session.next_step(), SendStep::Finished);
}

#[test]
fn unsupported_content_is_announced() {
    let command = ChannelContent::Command { name: "x".to_string(), args: vec![] };
    let session = SendSession::new(URL.to_string(), command);
    assert_eq!(next_body(&session), encode_chunk("(Unsupported content type)"));
}

#[test]
fn refusal_ends_sending() {
    for status in [100, 199, 300, 404, 500, 999] {
        let mut session = text_session("hi");
        assert_eq!(session.on_response(status), Reaction::GiveUp);
        assert_eq!(session.next_step(), SendStep::Failed);
    }
}

#[test]
fn missing_response_ends_sending() {
    let chunks = vec!["one".to_string(), "two".to_string(), "three".to_string()];
    let mut session = SendSession::from_chunks(URL.to_string(), chunks);
    assert_eq!(next_body(&session), encode_chunk("one"));
    assert_eq!(session.on_response(200), Reaction::Pause { millis: 200 });
    assert_eq!(next_body(&session), encode_chunk("two"));
    session.on_no_response();
    assert_eq!(session.next_step(), SendStep::Failed);
}

#[test]
fn adapter_sends_to_its_webhook() {
    let adapter = SynologyChatAdapter::new("tok".to_string(), URL.to_string(), 8444);
    let user = ChannelUser {
        platform_id: "1".to_string(),
        display_name: "alice".to_string(),
        openfang_user: None,
    };
    let mut session = adapter.send(&user, ChannelContent::Text("hi".to_string()));
    assert_eq!(
        session.next_step(),
        SendStep::Post(PostRequest {
            url: "http://x/hook".to_string(),
            content_type: "application/x-www-form-urlencoded",
            body: "payload=%7B%22text%22%3A%22hi%22%7D".to_string(),
        })
    );
    assert_eq!(session.on_response(200), Reaction::Continue);
    assert_eq!(session.next_step(), SendStep::Finished);
}

#[test]
fn rejection_is_told() {
    assert_eq!(
        rejection_message(404, Some("no such hook".to_string())),
        "Synology Chat incoming webhook error 404 Not Found: no such hook"
    );
    assert_eq!(
        rejection_message(500, None),
        "Synology Chat incoming webhook error 500 Internal Server Error: "
    );
    assert_eq!(
        rejection_message(999, None),
        "Synology Chat incoming webhook error 999 <unknown status code>: "
    );
}

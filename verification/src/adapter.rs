//! The Synology Chat channel: who it is, and what it makes of a webhook request.
//!
//! Synology Chat posts a form to the channel whenever someone writes in a chat
//! that has an outgoing webhook. The request carries the webhook's token, and
//! only a request with the token that the channel was set up with becomes a
//! message.
use vstd::hash_map::StringHashMap;
use vstd::prelude::*;

use crate::clock::utc_now;
use crate::decimal::{decimal, decimal_text};
use crate::form::{only_ampersands, opens_with_brace};
use crate::json::{json_bytes_fields, no_fields, number_field, text_field, Field, FieldValue, Fields};
use crate::payload::{body_fields, Payload, PayloadError};
use crate::secret::{seal, secret_chars, unseal, SecretText};
use crate::send::{text_to_send, SendSession, SessionView};
use crate::text::{
    chars_of, find_char, position_from, skip_from, text_between, texts, trim_start, words,
    words_from,
};
use crate::types::{
    optional_text, stored_fields, ChannelContent, ChannelMessage, ChannelType, ChannelTypeView,
    ChannelUser, ContentView, MessageView, Timestamp, UserView,
};

verus! {

/// The Synology Chat channel.
///
/// It receives messages through an outgoing webhook of Synology Chat, whose
/// token it checks, and sends through an incoming webhook.
pub struct SynologyChatAdapter {
    /// The token that requests from Synology Chat must carry.
    outgoing_token: SecretText,
    /// Where to post messages to Synology Chat.
    incoming_webhook_url: String,
    /// The port on which requests from Synology Chat come in.
    listen_port: u16,
}

/// What a webhook request is answered.
#[derive(Clone, Copy, Debug, PartialEq, Eq)]
pub enum WebhookReply {
    /// The request carries the right token.
    Accepted,
    /// The payload is not JSON.
    InvalidPayload,
    /// The request carries no payload.
    MissingPayload,
    /// The request does not carry the right token.
    InvalidToken,
}

/// What becomes of a webhook request: what to answer, and the message to pass
/// on, if there is one.
pub struct WebhookOutcome {
    pub reply: WebhookReply,
    pub message: Option<ChannelMessage>,
}

/// The specification of a `WebhookOutcome`.
pub struct OutcomeView {
    pub reply: WebhookReply,
    pub message: Option<MessageView>,
}

impl View for WebhookOutcome {
    type V = OutcomeView;

    open spec fn view(&self) -> OutcomeView {
        OutcomeView {
            reply: self.reply,
            message: match self.message {
                Some(message) => Some(message@),
                None => None,
            },
        }
    }
}

/// What a payload says about a post.
pub struct Post {
    pub text: Seq<char>,
    pub user_id: Seq<char>,
    pub username: Seq<char>,
    pub post_id: Seq<char>,
    pub channel_name: Seq<char>,
}

/// A text, or another in its place where it is missing.
pub open spec fn text_or(text: Option<Seq<char>>, default: Seq<char>) -> Seq<char> {
    match text {
        Some(text) => text,
        None => default,
    }
}

/// Who wrote a post: a number, in decimal, or a string.
pub open spec fn user_id_of(fields: Fields) -> Seq<char> {
    match number_field(fields, "user_id"@) {
        Some(number) => decimal(number as nat),
        None => text_or(text_field(fields, "user_id"@), "unknown"@),
    }
}

/// The post that a payload describes; none without a text.
pub open spec fn post_of(fields: Fields) -> Option<Post> {
    match text_field(fields, "text"@) {
        Some(text) => if text.len() == 0 {
            None
        } else {
            Some(
                Post {
                    text,
                    user_id: user_id_of(fields),
                    username: text_or(text_field(fields, "username"@), "Synology User"@),
                    post_id: text_or(text_field(fields, "post_id"@), "0"@),
                    channel_name: text_or(text_field(fields, "channel_name"@), Seq::empty()),
                },
            )
        },
        None => None,
    }
}

/// The command that a text gives: its name is the text up to the first space,
/// without the slashes in front, and its arguments are the words after it.
pub open spec fn command_of(text: Seq<char>) -> ContentView {
    let head = find_char(text, ' ') as int;
    ContentView::Command {
        name: trim_start(text.take(head), '/'),
        args: if head < text.len() {
            words(text.skip(head + 1))
        } else {
            Seq::empty()
        },
    }
}

/// What a post says: a command where it begins with a slash, and otherwise the
/// text after the name of who is speaking.
pub open spec fn content_of(username: Seq<char>, text: Seq<char>) -> ContentView {
    if text.len() > 0 && text[0] == '/' {
        command_of(text)
    } else {
        ContentView::Text("["@ + username + "]: "@ + text)
    }
}

/// What else is known of a post: the chat's name and number, where given.
pub open spec fn metadata_of(channel_name: Seq<char>, channel_id: Option<u64>) -> Fields {
    let named = if channel_name.len() > 0 {
        no_fields().insert("channel_name"@, Field::Text(channel_name))
    } else {
        no_fields()
    };
    match channel_id {
        Some(number) => named.insert("channel_id"@, Field::Number(number)),
        None => named,
    }
}

/// The message that a post becomes.
pub open spec fn message_of(post: Post, channel_id: Option<u64>, received: Timestamp) -> MessageView {
    MessageView {
        channel: ChannelTypeView::Custom("synology_chat"@),
        platform_message_id: "syno-"@ + post.post_id,
        sender: UserView {
            platform_id: post.user_id,
            display_name: post.username,
            openfang_user: None,
        },
        content: content_of(post.username, post.text),
        target_agent: None,
        timestamp: received,
        is_group: true,
        thread_id: None,
        metadata: metadata_of(post.channel_name, channel_id),
    }
}

/// What becomes of a request with this payload.
pub open spec fn payload_outcome(
    fields: Fields,
    token: Seq<char>,
    received: Timestamp,
) -> OutcomeView {
    if text_or(text_field(fields, "token"@), Seq::empty()) != token {
        OutcomeView { reply: WebhookReply::InvalidToken, message: None }
    } else {
        OutcomeView {
            reply: WebhookReply::Accepted,
            message: match post_of(fields) {
                Some(post) => Some(
                    message_of(post, number_field(fields, "channel_id"@), received),
                ),
                None => None,
            },
        }
    }
}

/// What a request without a payload is answered.
pub open spec fn refusal_of(error: PayloadError) -> WebhookReply {
    match error {
        PayloadError::InvalidJson => WebhookReply::InvalidPayload,
        PayloadError::Missing => WebhookReply::MissingPayload,
    }
}

/// What becomes of a request with this body.
pub open spec fn body_outcome(body: Seq<u8>, token: Seq<char>, received: Timestamp) -> OutcomeView {
    match body_fields(body) {
        Ok(fields) => payload_outcome(fields, token, received),
        Err(error) => OutcomeView { reply: refusal_of(error), message: None },
    }
}

impl WebhookReply {
    /// The HTTP status code of the reply.
    pub open spec fn spec_status(self) -> u16 {
        match self {
            WebhookReply::Accepted => 200,
            WebhookReply::InvalidPayload => 400,
            WebhookReply::MissingPayload => 400,
            WebhookReply::InvalidToken => 403,
        }
    }

    /// The body of the reply.
    pub open spec fn spec_text(self) -> Seq<char> {
        match self {
            WebhookReply::Accepted => "ok"@,
            WebhookReply::InvalidPayload => "Invalid payload JSON"@,
            WebhookReply::MissingPayload => "Missing payload field"@,
            WebhookReply::InvalidToken => "Forbidden: invalid token"@,
        }
    }

    /// The HTTP status code of the reply.
    pub fn status(&self) -> (status: u16)
        ensures
            status == self.spec_status(),
    {
        match self {
            WebhookReply::Accepted => 200,
            WebhookReply::InvalidPayload => 400,
            WebhookReply::MissingPayload => 400,
            WebhookReply::InvalidToken => 403,
        }
    }

    /// The body of the reply.
    pub fn text(&self) -> (text: &'static str)
        ensures
            text@ == self.spec_text(),
    {
        match self {
            WebhookReply::Accepted => "ok",
            WebhookReply::InvalidPayload => "Invalid payload JSON",
            WebhookReply::MissingPayload => "Missing payload field",
            WebhookReply::InvalidToken => "Forbidden: invalid token",
        }
    }
}

/// A string, or a copy of another text where it is missing.
fn string_or(text: Option<String>, default: &str) -> (string: String)
    ensures
        string@ == text_or(optional_text(text), default@),
{
    match text {
        Some(text) => text,
        None => default.to_owned(),
    }
}

/// Reads a text that begins with a slash as a command.
pub fn parse_command(text: &str) -> (content: ChannelContent)
    ensures
        content@ == command_of(text@),
{
    let chars = chars_of(text);
    assert(chars@.skip(0) == text@);
    let head: usize = position_from(&chars, 0, ' ');
    assert(text@.take(head as int) == chars@.subrange(0, head as int));
    let name_start: usize = skip_from(&chars, 0, head, '/');
    let name = text_between(&chars, name_start, head);
    let args = if head < chars.len() {
        words_from(&chars, head + 1)
    } else {
        Vec::new()
    };
    assert(head == text@.len() ==> texts(args@) == Seq::<Seq<char>>::empty());
    ChannelContent::Command { name, args }
}

/// Whether a text begins with a slash.
fn begins_with_slash(text: &str) -> (begins: bool)
    ensures
        begins == (text@.len() > 0 && text@[0] == '/'),
{
    !text.is_empty() && text.get_char(0) == '/'
}

/// Turns the text of a post into the content of a message.
pub fn parse_content(username: &str, text: &str) -> (content: ChannelContent)
    ensures
        content@ == content_of(username@, text@),
{
    if begins_with_slash(text) {
        parse_command(text)
    } else {
        let mut line = "[".to_owned();
        line.append(username);
        line.append("]: ");
        line.append(text);
        ChannelContent::Text(line)
    }
}

/// Collects what else is known of a post.
pub fn collect_metadata(channel_name: String, channel_id: Option<u64>) -> (metadata: StringHashMap<
    FieldValue,
>)
    ensures
        stored_fields(metadata@) == metadata_of(channel_name@, channel_id),
{
    let mut metadata: StringHashMap<FieldValue> = StringHashMap::new();
    assert(stored_fields(metadata@) == no_fields());
    if !channel_name.as_str().is_empty() {
        metadata.insert("channel_name".to_owned(), FieldValue::Text(channel_name));
    }
    let ghost named = metadata@;
    assert(stored_fields(named) == metadata_of(channel_name@, None));
    if let Some(number) = channel_id {
        metadata.insert("channel_id".to_owned(), FieldValue::Number(number));
        assert(stored_fields(metadata@) == stored_fields(named).insert(
            "channel_id"@,
            Field::Number(number),
        ));
    }
    metadata
}

impl SynologyChatAdapter {
    /// The token that requests must carry.
    pub closed spec fn token(&self) -> Seq<char> {
        secret_chars(self.outgoing_token)
    }

    /// Where messages to Synology Chat are posted.
    pub closed spec fn url(&self) -> Seq<char> {
        self.incoming_webhook_url@
    }

    /// The port on which requests come in.
    pub closed spec fn port(&self) -> u16 {
        self.listen_port
    }

    /// Sets up a channel.
    ///
    /// * `outgoing_token` - the token of the outgoing webhook, to check requests by.
    /// * `incoming_webhook_url` - the URL of the incoming webhook, to post messages to.
    /// * `listen_port` - the port to listen on for requests of the outgoing webhook.
    pub fn new(
        outgoing_token: String,
        incoming_webhook_url: String,
        listen_port: u16,
    ) -> (adapter: Self)
        ensures
            adapter.token() == outgoing_token@,
            adapter.url() == incoming_webhook_url@,
            adapter.port() == listen_port,
    {
        SynologyChatAdapter {
            outgoing_token: seal(outgoing_token),
            incoming_webhook_url,
            listen_port,
        }
    }

    /// The name of the channel.
    pub fn name(&self) -> (name: &str)
        ensures
            name@ == "synology_chat"@,
    {
        "synology_chat"
    }

    /// The kind of the channel.
    pub fn channel_type(&self) -> (kind: ChannelType)
        ensures
            kind@ == ChannelTypeView::Custom("synology_chat"@),
    {
        ChannelType::Custom("synology_chat".to_owned())
    }

    /// Where messages to Synology Chat are posted.
    pub fn incoming_webhook_url(&self) -> (url: &str)
        ensures
            url@ == self.url(),
    {
        self.incoming_webhook_url.as_str()
    }

    /// The port on which requests come in.
    pub fn listen_port(&self) -> (port: u16)
        ensures
            port == self.port(),
    {
        self.listen_port
    }

    /// Begins to send a content. It goes to the incoming webhook, whoever it is
    /// meant for.
    pub fn send(&self, _user: &ChannelUser, content: ChannelContent) -> (session: SendSession)
        ensures
            session@ == SessionView::begin(self.url(), text_to_send(content@)),
    {
        SendSession::new(self.incoming_webhook_url.clone(), content)
    }

    /// Reads the post that a payload describes: its text, the user's number or
    /// name, the name to show, the post's number and the chat's name.
    ///
    /// There is no post without a text. The rest is made up where it is missing.
    pub fn parse_outgoing_payload(payload: &Payload) -> (post: Option<
        (String, String, String, String, String),
    >)
        ensures
            match post {
                Some((text, user_id, username, post_id, channel_name)) => post_of(payload@) == Some(
                    Post {
                        text: text@,
                        user_id: user_id@,
                        username: username@,
                        post_id: post_id@,
                        channel_name: channel_name@,
                    },
                ),
                None => post_of(payload@) is None,
            },
    {
        let text = match payload.text("text") {
            Some(text) => text,
            None => {
                return None;
            },
        };
        if text.as_str().is_empty() {
            return None;
        }
        let user_id = match payload.number("user_id") {
            Some(number) => decimal_text(number),
            None => string_or(payload.text("user_id"), "unknown"),
        };
        let username = string_or(payload.text("username"), "Synology User");
        let post_id = string_or(payload.text("post_id"), "0");
        let channel_name = match payload.text("channel_name") {
            Some(name) => name,
            None => String::new(),
        };
        Some((text, user_id, username, post_id, channel_name))
    }

    /// Decides on a request with this payload that came in at this time.
    pub fn handle_payload(&self, payload: &Payload, received: Timestamp) -> (outcome: WebhookOutcome)
        ensures
            outcome@ == payload_outcome(payload@, self.token(), received),
    {
        let token = match payload.text("token") {
            Some(token) => token,
            None => String::new(),
        };
        if token != *unseal(&self.outgoing_token) {
            return WebhookOutcome { reply: WebhookReply::InvalidToken, message: None };
        }
        let message = match Self::parse_outgoing_payload(payload) {
            Some((text, user_id, username, post_id, channel_name)) => {
                let content = parse_content(username.as_str(), text.as_str());
                let metadata = collect_metadata(channel_name, payload.number("channel_id"));
                let mut platform_message_id = "syno-".to_owned();
                platform_message_id.append(post_id.as_str());
                Some(
                    ChannelMessage {
                        channel: self.channel_type(),
                        platform_message_id,
                        sender: ChannelUser {
                            platform_id: user_id,
                            display_name: username,
                            openfang_user: None,
                        },
                        content,
                        target_agent: None,
                        timestamp: received,
                        is_group: true,
                        thread_id: None,
                        metadata,
                    },
                )
            },
            None => None,
        };
        WebhookOutcome { reply: WebhookReply::Accepted, message }
    }

    /// Decides on a request with this body that came in at this time. A body that
    /// is a JSON object, without ampersands, is the payload itself.
    pub fn handle_body(&self, body: &[u8], received: Timestamp) -> (outcome: WebhookOutcome)
        ensures
            outcome@ == body_outcome(body@, self.token(), received),
            outcome.reply == WebhookReply::MissingPayload <==> only_ampersands(body@),
            opens_with_brace(body@) && json_bytes_fields(body@) is Some ==> body_fields(body@)
                == Ok::<Fields, PayloadError>(json_bytes_fields(body@)->Some_0),
    {
        match Payload::from_body(body) {
            Ok(payload) => self.handle_payload(&payload, received),
            Err(PayloadError::InvalidJson) => WebhookOutcome {
                reply: WebhookReply::InvalidPayload,
                message: None,
            },
            Err(PayloadError::Missing) => WebhookOutcome {
                reply: WebhookReply::MissingPayload,
                message: None,
            },
        }
    }

    /// Decides on a request with this body that is coming in now. The clock is
    /// read only where there is a message to stamp.
    pub fn handle_webhook(&self, body: &[u8]) -> (outcome: WebhookOutcome)
        ensures
            exists|received: Timestamp|
                received.nanos < 1_000_000_000 && outcome@ == #[trigger] body_outcome(
                    body@,
                    self.token(),
                    received,
                ),
            outcome.reply == WebhookReply::MissingPayload <==> only_ampersands(body@),
            opens_with_brace(body@) && json_bytes_fields(body@) is Some ==> body_fields(body@)
                == Ok::<Fields, PayloadError>(json_bytes_fields(body@)->Some_0),
    {
        let unstamped = Timestamp { seconds: 0, nanos: 0 };
        let outcome = self.handle_body(body, unstamped);
        match outcome.message {
            Some(message) => {
                let mut message = message;
                message.timestamp = utc_now();
                let stamped = WebhookOutcome { reply: outcome.reply, message: Some(message) };
                assert(stamped@ == body_outcome(body@, self.token(), message.timestamp));
                stamped
            },
            None => {
                let silent = WebhookOutcome { reply: outcome.reply, message: None };
                assert(silent@ == body_outcome(body@, self.token(), unstamped));
                silent
            },
        }
    }
}

} // verus!

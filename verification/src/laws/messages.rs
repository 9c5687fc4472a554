//! What a payload's members become in the message.
use vstd::prelude::*;

use crate::adapter::{
    body_outcome, command_of, content_of, payload_outcome, post_of, OutcomeView, WebhookOutcome,
    WebhookReply,
};
use crate::decimal::decimal;
use crate::json::{number_field, text_field, Field, FieldValue, Fields};
use crate::laws::commands::{has_no_space, law_command_name};
use crate::payload::{body_fields, PayloadError};
use crate::types::{
    optional_text, ChannelContent, ChannelMessage, ChannelType, ChannelTypeView, ContentView,
    Timestamp,
};

verus! {

/// Whether the member `key` is a string.
pub open spec fn has_text(fields: Fields, key: Seq<char>) -> bool {
    fields.contains_key(key) && fields[key] is Text
}

/// Whether the member `key` is an unsigned integer.
pub open spec fn has_number(fields: Fields, key: Seq<char>) -> bool {
    fields.contains_key(key) && fields[key] is Number
}

/// Whether the member `token` is this token, character for character; a payload
/// without such a member counts as one with an empty token.
pub open spec fn carries_token(fields: Fields, token: Seq<char>) -> bool {
    if has_text(fields, "token"@) {
        fields["token"@] == Field::Text(token)
    } else {
        token.len() == 0
    }
}

/// Whether one of the members that the channel reads has this name.
pub open spec fn is_read(key: Seq<char>) -> bool {
    ||| key == "token"@
    ||| key == "text"@
    ||| key == "user_id"@
    ||| key == "username"@
    ||| key == "post_id"@
    ||| key == "channel_name"@
    ||| key == "channel_id"@
}

/// A member is read as the string or the number that it is, and as neither where
/// it is something else or missing.
pub proof fn law_member_is_read(fields: Fields, key: Seq<char>)
    ensures
        text_field(fields, key) is Some <==> has_text(fields, key),
        text_field(fields, key) matches Some(text) ==> fields[key] == Field::Text(text),
        number_field(fields, key) is Some <==> has_number(fields, key),
        number_field(fields, key) matches Some(number) ==> fields[key] == Field::Number(number),
{
}

/// A payload is accepted exactly if it carries the channel's token. Otherwise it
/// is refused for its token, and nothing of it is passed on.
pub proof fn law_token_decides(fields: Fields, token: Seq<char>, received: Timestamp)
    ensures
        carries_token(fields, token) ==> payload_outcome(fields, token, received).reply
            == WebhookReply::Accepted,
        !carries_token(fields, token) ==> payload_outcome(fields, token, received) == (OutcomeView {
            reply: WebhookReply::InvalidToken,
            message: None,
        }),
{
    if token.len() == 0 {
        assert(token == Seq::<char>::empty());
    }
}

/// The post that is read has the payload's strings, character for character: its
/// text, and the name of who wrote it, its number and the chat's name where
/// those are strings. Other values stand in only where they are not.
pub proof fn law_post_keeps_strings(fields: Fields)
    requires
        has_text(fields, "text"@),
        fields["text"@]->Text_0.len() > 0,
    ensures
        post_of(fields) matches Some(post) && {
            &&& fields["text"@] == Field::Text(post.text)
            &&& has_text(fields, "username"@) ==> fields["username"@] == Field::Text(post.username)
            &&& !has_text(fields, "username"@) ==> post.username == "Synology User"@
            &&& has_text(fields, "post_id"@) ==> fields["post_id"@] == Field::Text(post.post_id)
            &&& !has_text(fields, "post_id"@) ==> post.post_id == seq!['0']
            &&& has_text(fields, "channel_name"@) ==> fields["channel_name"@] == Field::Text(
                post.channel_name,
            )
            &&& !has_text(fields, "channel_name"@) ==> post.channel_name.len() == 0
            &&& has_text(fields, "user_id"@) ==> fields["user_id"@] == Field::Text(post.user_id)
            &&& has_number(fields, "user_id"@) ==> post.user_id == decimal(
                fields["user_id"@]->Number_0 as nat,
            )
            &&& !has_text(fields, "user_id"@) && !has_number(fields, "user_id"@) ==> post.user_id
                == "unknown"@
        },
{
    reveal_strlit("0");
    assert("0"@ == seq!['0']);
}

/// There is no post in a payload whose member `text` is missing, is no string,
/// or is empty.
pub proof fn law_no_post_without_text(fields: Fields)
    ensures
        post_of(fields) is None <==> !has_text(fields, "text"@) || fields["text"@] == Field::Text(
            Seq::empty(),
        ),
{
    if has_text(fields, "text"@) && fields["text"@]->Text_0.len() == 0 {
        assert(fields["text"@]->Text_0 == Seq::<char>::empty());
    }
}

/// A number is written digit by digit: the last digit follows what the number
/// without it is written as.
pub proof fn law_decimal_by_digit(front: nat, digit: nat)
    requires
        digit < 10,
    ensures
        decimal(digit).len() == 1 && decimal(digit)[0] as int == 48 + digit,
        front > 0 ==> decimal(front * 10 + digit) == decimal(front) + decimal(digit),
{
    if front > 0 {
        assert((front * 10 + digit) / 10 == front);
        assert((front * 10 + digit) % 10 == digit);
        assert(decimal(front).push(decimal(digit)[0]) == decimal(front) + decimal(digit));
    }
}

/// A payload with the channel's token and a text that begins with a slash
/// becomes a command, with the name and the arguments that the text gives. The
/// name is what stands between the slashes and the first space.
pub proof fn law_slash_makes_command(
    fields: Fields,
    token: Seq<char>,
    received: Timestamp,
    slashes: nat,
    name: Seq<char>,
    rest: Seq<char>,
)
    requires
        carries_token(fields, token),
        slashes > 0,
        has_no_space(name),
        name.len() > 0 ==> name[0] != '/',
        rest.len() > 0 ==> rest[0] == ' ',
        fields.contains_key("text"@),
        fields["text"@] == Field::Text(Seq::new(slashes, |i: int| '/') + name + rest),
    ensures
        payload_outcome(fields, token, received).message matches Some(message)
            && message.content matches ContentView::Command { name: read, .. } && {
            &&& read == name
            &&& message.content == command_of(Seq::new(slashes, |i: int| '/') + name + rest)
        },
{
    let text = Seq::new(slashes, |i: int| '/') + name + rest;
    assert(text[0] == '/');
    law_token_decides(fields, token, received);
    law_command_name(slashes, name, rest);
}

/// What a message says is a command exactly if the payload's text begins with a
/// slash, and then the one that the text gives. Any other text is passed on
/// whole, after the name of who wrote it in brackets.
pub proof fn law_text_decides_content(
    fields: Fields,
    token: Seq<char>,
    received: Timestamp,
    text: Seq<char>,
)
    requires
        carries_token(fields, token),
        fields.contains_key("text"@),
        fields["text"@] == Field::Text(text),
        text.len() > 0,
    ensures
        payload_outcome(fields, token, received).message matches Some(message) && {
            &&& message.content is Command <==> text[0] == '/'
            &&& text[0] == '/' ==> message.content == command_of(text)
            &&& text[0] != '/' && has_text(fields, "username"@) ==> message.content
                == ContentView::Text(
                seq!['['] + fields["username"@]->Text_0 + seq![']', ':', ' '] + text,
            )
            &&& text[0] != '/' && !has_text(fields, "username"@) ==> message.content
                == ContentView::Text(seq!['['] + "Synology User"@ + seq![']', ':', ' '] + text)
        },
{
    reveal_strlit("[");
    reveal_strlit("]: ");
    assert("["@ == seq!['[']);
    assert("]: "@ == seq![']', ':', ' ']);
    law_token_decides(fields, token, received);
}

/// A text is a command exactly if it begins with a slash, whoever wrote it.
pub proof fn law_slash_decides(username: Seq<char>, other: Seq<char>, text: Seq<char>)
    ensures
        content_of(username, text) is Command <==> text.len() > 0 && text[0] == '/',
        text.len() > 0 && text[0] == '/' ==> content_of(username, text) == content_of(other, text)
            && content_of(username, text) == command_of(text),
{
}

/// A message comes exactly from a payload with the channel's token and with a
/// text that is not empty.
pub proof fn law_message_exists(fields: Fields, token: Seq<char>, received: Timestamp)
    ensures
        payload_outcome(fields, token, received).message is Some <==> carries_token(fields, token)
            && has_text(fields, "text"@) && fields["text"@]->Text_0.len() > 0,
{
    law_token_decides(fields, token, received);
}

/// A message shows who wrote it, which post it is, where and when: each as the
/// payload's member says, where that is of the right kind.
pub proof fn law_message_shows_members(fields: Fields, token: Seq<char>, received: Timestamp)
    ensures
        payload_outcome(fields, token, received).message matches Some(message) ==> {
            &&& message.channel == ChannelTypeView::Custom("synology_chat"@)
            &&& message.timestamp == received
            &&& message.is_group
            &&& message.thread_id is None
            &&& message.target_agent is None
            &&& message.sender.openfang_user is None
            &&& has_text(fields, "username"@) ==> fields["username"@] == Field::Text(
                message.sender.display_name,
            )
            &&& !has_text(fields, "username"@) ==> message.sender.display_name == "Synology User"@
            &&& has_text(fields, "user_id"@) ==> fields["user_id"@] == Field::Text(
                message.sender.platform_id,
            )
            &&& has_number(fields, "user_id"@) ==> message.sender.platform_id == decimal(
                fields["user_id"@]->Number_0 as nat,
            )
            &&& !has_text(fields, "user_id"@) && !has_number(fields, "user_id"@)
                ==> message.sender.platform_id == "unknown"@
            &&& has_text(fields, "post_id"@) ==> message.platform_message_id == seq![
                's',
                'y',
                'n',
                'o',
                '-',
            ] + fields["post_id"@]->Text_0
            &&& !has_text(fields, "post_id"@) ==> message.platform_message_id == seq![
                's',
                'y',
                'n',
                'o',
                '-',
                '0',
            ]
        },
{
    reveal_strlit("syno-");
    reveal_strlit("0");
    assert("syno-"@ == seq!['s', 'y', 'n', 'o', '-']);
    assert("syno-"@ + "0"@ == seq!['s', 'y', 'n', 'o', '-', '0']);
}

/// Besides, a message tells the chat's name, where the payload has one that is
/// not empty, and the chat's number, where it has one, and nothing else.
pub proof fn law_message_metadata(
    fields: Fields,
    token: Seq<char>,
    received: Timestamp,
    key: Seq<char>,
)
    ensures
        payload_outcome(fields, token, received).message matches Some(message) ==> {
            let named = has_text(fields, "channel_name"@) && fields["channel_name"@]
                != Field::Text(Seq::empty());
            let numbered = has_number(fields, "channel_id"@);
            &&& message.metadata.contains_key(key) <==> (key == "channel_name"@ && named) || (key
                == "channel_id"@ && numbered)
            &&& message.metadata.contains_key(key) ==> message.metadata[key] == fields[key]
        },
{
    reveal_strlit("channel_name");
    reveal_strlit("channel_id");
    assert("channel_name"@.len() != "channel_id"@.len());
    if has_text(fields, "channel_name"@) && fields["channel_name"@]->Text_0.len() == 0 {
        assert(fields["channel_name"@]->Text_0 == Seq::<char>::empty());
    }
}

/// Members that the channel does not read make no difference.
pub proof fn law_other_members_ignored(
    fields: Fields,
    others: Fields,
    token: Seq<char>,
    received: Timestamp,
)
    requires
        forall|key: Seq<char>| #[trigger]
            is_read(key) ==> fields.contains_key(key) == others.contains_key(key),
        forall|key: Seq<char>| #[trigger]
            is_read(key) && fields.contains_key(key) ==> fields[key] == others[key],
    ensures
        payload_outcome(fields, token, received) == payload_outcome(others, token, received),
{
    assert(is_read("token"@));
    assert(is_read("text"@));
    assert(is_read("user_id"@));
    assert(is_read("username"@));
    assert(is_read("post_id"@));
    assert(is_read("channel_name"@));
    assert(is_read("channel_id"@));
}

/// A request is decided by its payload alone. Without one it is refused as a bad
/// request, in words that say whether a payload is missing or is not JSON.
pub proof fn law_request_answer(body: Seq<u8>, token: Seq<char>, received: Timestamp)
    ensures
        match body_fields(body) {
            Ok(fields) => {
                let outcome = body_outcome(body, token, received);
                &&& outcome == payload_outcome(fields, token, received)
                &&& carries_token(fields, token) ==> outcome.reply.spec_status() == 200
                    && outcome.reply.spec_text() == "ok"@
                &&& !carries_token(fields, token) ==> outcome.reply.spec_status() == 403
                    && outcome.reply.spec_text() == "Forbidden: invalid token"@
            },
            Err(error) => {
                let outcome = body_outcome(body, token, received);
                &&& outcome.message is None
                &&& outcome.reply.spec_status() == 400
                &&& error == PayloadError::InvalidJson ==> outcome.reply.spec_text()
                    == "Invalid payload JSON"@
                &&& error == PayloadError::Missing ==> outcome.reply.spec_text()
                    == "Missing payload field"@
            },
        },
{
    if let Ok(fields) = body_fields(body) {
        law_token_decides(fields, token, received);
    }
}

/// An outcome reads as what it holds: the reply and the message, field by field.
pub proof fn law_outcome_as_held(outcome: WebhookOutcome)
    ensures
        outcome@.reply == outcome.reply,
        outcome@.message is Some <==> outcome.message is Some,
        outcome.message matches Some(message) ==> outcome@.message == Some(message@),
{
}

/// A message reads as what it holds.
pub proof fn law_message_as_held(message: ChannelMessage)
    ensures
        message.channel matches ChannelType::Custom(name) && message@.channel
            == ChannelTypeView::Custom(name@),
        message@.platform_message_id == message.platform_message_id@,
        message@.sender.platform_id == message.sender.platform_id@,
        message@.sender.display_name == message.sender.display_name@,
        message@.sender.openfang_user is None <==> message.sender.openfang_user is None,
        message@.content == message.content@,
        message@.target_agent is None <==> message.target_agent is None,
        message@.timestamp == message.timestamp,
        message@.is_group == message.is_group,
        message@.thread_id is None <==> message.thread_id is None,
        forall|key: Seq<char>| #[trigger]
            message@.metadata.contains_key(key) <==> message.metadata@.contains_key(key),
        forall|key: Seq<char>|
            message.metadata@.contains_key(key) ==> (match message.metadata@[key] {
                FieldValue::Text(text) => #[trigger] message@.metadata[key] == Field::Text(text@),
                FieldValue::Number(number) => message@.metadata[key] == Field::Number(number),
            }),
{
}

/// A string that may be missing reads as what it is.
pub proof fn law_optional_text_as_held(text: Option<String>)
    ensures
        optional_text(text) is Some <==> text is Some,
        text matches Some(string) ==> optional_text(text) == Some(string@),
{
}

/// A content reads as what it holds: its text, or its name and each of its
/// arguments.
pub proof fn law_content_as_held(content: ChannelContent)
    ensures
        match content {
            ChannelContent::Text(text) => content@ == ContentView::Text(text@),
            ChannelContent::Command { name, args } => content@ matches ContentView::Command {
                name: name_read,
                args: args_read,
            } && {
                &&& name_read == name@
                &&& args_read.len() == args@.len()
                &&& forall|k: int| 0 <= k < args@.len() ==> #[trigger] args_read[k] == args@[k]@
            },
        },
{
}

} // verus!

//! What holds of the channel as a whole.
use vstd::prelude::*;

use crate::adapter::{
    body_outcome, command_of, content_of, metadata_of, payload_outcome, post_of, text_or,
    user_id_of, OutcomeView, WebhookReply,
};
use crate::decimal::{decimal, parsed_u64};
use crate::form::form_pairs;
use crate::json::{json_bytes_fields, number_field, text_field, Field, Fields};
use crate::payload::{
    body_fields, first_named, form_field, form_members, member_fields, source_of, PayloadError,
    SourceView,
};
use crate::send::{
    chunks_of, is_success, is_taken, Reaction, SessionView, CHUNK_PAUSE_MILLIS, MAX_MESSAGE_LEN,
};
use crate::text::{find_char, is_whitespace, is_word, joined, lemma_word_len, trim_start, word_len, words};
use crate::types::{ChannelTypeView, ContentView, MessageView, Timestamp};

pub mod commands;
pub mod messages;
pub mod payloads;
pub mod posting;

verus! {

/// A request becomes a message only if it carries the channel's token.
pub proof fn law_message_carries_token(body: Seq<u8>, token: Seq<char>, received: Timestamp)
    ensures
        body_outcome(body, token, received).message is Some ==> body_fields(body) is Ok && text_or(
            text_field(body_fields(body)->Ok_0, "token"@),
            Seq::empty(),
        ) == token,
{
}

/// A request is accepted exactly if it has a payload that carries the channel's
/// token.
pub proof fn law_accepted_with_token(body: Seq<u8>, token: Seq<char>, received: Timestamp)
    ensures
        body_outcome(body, token, received).reply == WebhookReply::Accepted <==> body_fields(
            body,
        ) is Ok && text_or(text_field(body_fields(body)->Ok_0, "token"@), Seq::empty()) == token,
{
}

/// A request that is refused leaves no message.
pub proof fn law_refused_without_message(body: Seq<u8>, token: Seq<char>, received: Timestamp)
    ensures
        body_outcome(body, token, received).reply != WebhookReply::Accepted ==> body_outcome(
            body,
            token,
            received,
        ).message is None,
{
}

/// A payload with the channel's token becomes a message exactly if it has a text
/// that is not empty.
pub proof fn law_message_has_text(fields: Fields, token: Seq<char>, received: Timestamp)
    requires
        text_or(text_field(fields, "token"@), Seq::empty()) == token,
    ensures
        payload_outcome(fields, token, received).message is Some <==> text_or(
            text_field(fields, "text"@),
            Seq::empty(),
        ).len() > 0,
{
}

/// Every message is one of this channel and of a group, and belongs to no
/// thread, no agent and no local user.
pub proof fn law_message_origin(body: Seq<u8>, token: Seq<char>, received: Timestamp)
    ensures
        body_outcome(body, token, received).message matches Some(message) ==> {
            &&& message.channel == ChannelTypeView::Custom("synology_chat"@)
            &&& message.is_group
            &&& message.thread_id is None
            &&& message.target_agent is None
            &&& message.sender.openfang_user is None
            &&& "syno-"@.is_prefix_of(message.platform_message_id)
        },
{
    if let Some(message) = body_outcome(body, token, received).message {
        assert("syno-"@.is_prefix_of(message.platform_message_id)) by {
            let fields = body_fields(body)->Ok_0;
            let post = post_of(fields)->Some_0;
            assert(message.platform_message_id == "syno-"@ + post.post_id);
            assert(("syno-"@ + post.post_id).subrange(0, "syno-"@.len() as int) == "syno-"@);
        }
    }
}

/// The time at which a request comes in shows in the message's timestamp and
/// nowhere else.
pub proof fn law_time_only_stamps(
    body: Seq<u8>,
    token: Seq<char>,
    received: Timestamp,
    later: Timestamp,
)
    ensures
        body_outcome(body, token, later) == (OutcomeView {
            reply: body_outcome(body, token, received).reply,
            message: match body_outcome(body, token, received).message {
                Some(message) => Some(MessageView { timestamp: later, ..message }),
                None => None,
            },
        }),
{
}

/// A user's number reads the same whether it comes as a number or as a string in
/// decimal.
pub proof fn law_user_number_as_text(fields: Fields, number: u64)
    ensures
        user_id_of(fields.insert("user_id"@, Field::Number(number))) == user_id_of(
            fields.insert("user_id"@, Field::Text(decimal(number as nat))),
        ),
{
}

/// Where a form has fields named `payload`, the first of them is the payload,
/// whatever the other fields are.
pub proof fn law_payload_field_decides(pairs: Seq<(Seq<char>, Seq<char>)>, at: int)
    requires
        0 <= at < pairs.len(),
        pairs[at].0 == "payload"@,
        forall|i: int| 0 <= i < at ==> (#[trigger] pairs[i]).0 != "payload"@,
    ensures
        source_of(pairs) == SourceView::Json(pairs[at].1),
{
    lemma_first_named(pairs, "payload"@, at);
}

/// The first pair of a name is the one that counts.
proof fn lemma_first_named(pairs: Seq<(Seq<char>, Seq<char>)>, name: Seq<char>, at: int)
    requires
        0 <= at < pairs.len(),
        pairs[at].0 == name,
        forall|i: int| 0 <= i < at ==> (#[trigger] pairs[i]).0 != name,
    ensures
        first_named(pairs, name) == Some(pairs[at].1),
    decreases pairs.len(),
{
    if at > 0 {
        assert(pairs[0].0 != name);
        assert forall|i: int| 0 <= i < at - 1 implies (#[trigger] pairs.skip(1)[i]).0 != name by {
            assert(pairs[i + 1].0 != name);
        }
        lemma_first_named(pairs.skip(1), name, at - 1);
    }
}

/// A body that is JSON is the payload, where no form field is named `payload`.
pub proof fn law_bare_json_is_payload(body: Seq<u8>)
    requires
        forall|i: int| 0 <= i < form_pairs(body).len() ==> (#[trigger] form_pairs(body)[i]).0
            != "payload"@,
        json_bytes_fields(body) is Some,
    ensures
        body_fields(body) == Ok::<Fields, PayloadError>(json_bytes_fields(body)->Some_0),
{
    lemma_none_named(form_pairs(body), "payload"@);
}

/// The form fields are the payload's members, where none is named `payload` and
/// the body is no JSON.
pub proof fn law_form_fields_are_members(body: Seq<u8>)
    requires
        form_pairs(body).len() > 0,
        forall|i: int| 0 <= i < form_pairs(body).len() ==> (#[trigger] form_pairs(body)[i]).0
            != "payload"@,
        json_bytes_fields(body) is None,
    ensures
        body_fields(body) == Ok::<Fields, PayloadError>(
            member_fields(form_members(form_pairs(body))),
        ),
{
    lemma_none_named(form_pairs(body), "payload"@);
}

/// Where no pair has a name, none is found.
proof fn lemma_none_named(pairs: Seq<(Seq<char>, Seq<char>)>, name: Seq<char>)
    requires
        forall|i: int| 0 <= i < pairs.len() ==> (#[trigger] pairs[i]).0 != name,
    ensures
        first_named(pairs, name) is None,
    decreases pairs.len(),
{
    if pairs.len() > 0 {
        assert(pairs[0].0 != name);
        assert forall|i: int| 0 <= i < pairs.skip(1).len() implies (#[trigger] pairs.skip(1)[i]).0
            != name by {
            assert(pairs[i + 1].0 != name);
        }
        lemma_none_named(pairs.skip(1), name);
    }
}

/// Of form fields with the same name, the last one counts.
pub proof fn law_last_form_field_counts(pairs: Seq<(Seq<char>, Seq<char>)>, at: int)
    requires
        0 <= at < pairs.len(),
        forall|i: int| at < i < pairs.len() ==> (#[trigger] pairs[i]).0 != pairs[at].0,
    ensures
        member_fields(form_members(pairs)).contains_key(pairs[at].0),
        member_fields(form_members(pairs))[pairs[at].0] == form_field(pairs[at].1),
    decreases pairs.len(),
{
    let last = pairs.len() - 1;
    assert(form_members(pairs).drop_last() == form_members(pairs.drop_last()));
    if at < last {
        assert(pairs[last].0 != pairs[at].0);
        assert forall|i: int| at < i < pairs.drop_last().len() implies (
        #[trigger] pairs.drop_last()[i]).0 != pairs[at].0 by {
            assert(pairs[i].0 != pairs[at].0);
        }
        law_last_form_field_counts(pairs.drop_last(), at);
    }
}

/// A form field whose value stands for a number is no text. So a token, a text,
/// a name or a post's number that consists of digits is not seen as one in a
/// payload of form fields.
pub proof fn law_numeric_form_field_is_no_text(pairs: Seq<(Seq<char>, Seq<char>)>, at: int)
    requires
        0 <= at < pairs.len(),
        forall|i: int| at < i < pairs.len() ==> (#[trigger] pairs[i]).0 != pairs[at].0,
        parsed_u64(pairs[at].1) is Some,
    ensures
        text_field(member_fields(form_members(pairs)), pairs[at].0) is None,
        number_field(member_fields(form_members(pairs)), pairs[at].0) == parsed_u64(pairs[at].1),
{
    law_last_form_field_counts(pairs, at);
}

/// A payload of form fields is refused where its token stands for a number,
/// unless the channel's token is empty.
pub proof fn law_numeric_form_token_refused(
    pairs: Seq<(Seq<char>, Seq<char>)>,
    at: int,
    token: Seq<char>,
    received: Timestamp,
)
    requires
        0 <= at < pairs.len(),
        pairs[at].0 == "token"@,
        forall|i: int| at < i < pairs.len() ==> (#[trigger] pairs[i]).0 != "token"@,
        parsed_u64(pairs[at].1) is Some,
        token.len() > 0,
    ensures
        payload_outcome(member_fields(form_members(pairs)), token, received) == (OutcomeView {
            reply: WebhookReply::InvalidToken,
            message: None,
        }),
{
    law_numeric_form_field_is_no_text(pairs, at);
}

/// What is known of a post besides is the chat's name, where it is not empty,
/// and the chat's number, where there is one.
pub proof fn law_metadata_members(channel_name: Seq<char>, channel_id: Option<u64>, key: Seq<char>)
    ensures
        metadata_of(channel_name, channel_id).contains_key(key) <==> (key == "channel_name"@
            && channel_name.len() > 0) || (key == "channel_id"@ && channel_id is Some),
        channel_name.len() > 0 ==> text_field(
            metadata_of(channel_name, channel_id),
            "channel_name"@,
        ) == Some(channel_name),
        number_field(metadata_of(channel_name, channel_id), "channel_id"@) == channel_id,
{
    reveal_strlit("channel_name");
    reveal_strlit("channel_id");
    assert("channel_name"@.len() != "channel_id"@.len());
}

/// A post that does not begin with a slash becomes a text that ends with the
/// post and begins with the name of who wrote it.
pub proof fn law_text_names_sender(username: Seq<char>, text: Seq<char>)
    requires
        text.len() == 0 || text[0] != '/',
    ensures
        content_of(username, text) == ContentView::Text(
            seq!['['] + username + seq![']', ':', ' '] + text,
        ),
{
    reveal_strlit("[");
    reveal_strlit("]: ");
    assert("["@ == seq!['[']);
    assert("]: "@ == seq![']', ':', ' ']);
}

/// A command's name has no slash in front and no space in it, and each of its
/// arguments is one word.
pub proof fn law_command_parts(text: Seq<char>)
    ensures
        command_of(text) matches ContentView::Command { name, args } && {
            &&& name.len() == 0 || name[0] != '/'
            &&& forall|i: int| 0 <= i < name.len() ==> #[trigger] name[i] != ' '
            &&& forall|k: int| 0 <= k < args.len() ==> is_word(#[trigger] args[k])
        },
{
    let head = find_char(text, ' ') as int;
    lemma_find_char(text, ' ');
    lemma_trim_start(text.take(head), '/');
    if head < text.len() {
        lemma_words(text.skip(head + 1));
    }
}

/// The first `c` in a text has no other before it.
proof fn lemma_find_char(text: Seq<char>, c: char)
    ensures
        find_char(text, c) <= text.len(),
        forall|i: int| 0 <= i < find_char(text, c) ==> #[trigger] text[i] != c,
    decreases text.len(),
{
    if text.len() > 0 && text[0] != c {
        lemma_find_char(text.skip(1), c);
        assert forall|i: int| 0 <= i < find_char(text, c) implies #[trigger] text[i] != c by {
            if i > 0 {
                assert(text[i] == text.skip(1)[i - 1]);
            }
        }
    }
}

/// What is left of a trimmed text is its end, and does not begin with `c`.
proof fn lemma_trim_start(text: Seq<char>, c: char)
    ensures
        trim_start(text, c).len() == 0 || trim_start(text, c)[0] != c,
        trim_start(text, c).len() <= text.len(),
        trim_start(text, c) == text.skip(text.len() - trim_start(text, c).len()),
    decreases text.len(),
{
    if text.len() > 0 && text[0] == c {
        lemma_trim_start(text.skip(1), c);
    }
}

/// Each of the words of a text is one word.
proof fn lemma_words(text: Seq<char>)
    ensures
        forall|k: int| 0 <= k < words(text).len() ==> is_word(#[trigger] words(text)[k]),
    decreases text.len(),
{
    if text.len() > 0 {
        if is_whitespace(text[0]) {
            lemma_words(text.skip(1));
            assert(words(text) == words(text.skip(1)));
        } else {
            let len = word_len(text) as int;
            let first = text.take(len);
            let rest = words(text.skip(len));
            lemma_word_len(text);
            lemma_words(text.skip(len));
            assert(words(text) == seq![first] + rest);
            assert forall|i: int| 0 <= i < first.len() implies !is_whitespace(
                #[trigger] first[i],
            ) by {
                assert(!is_whitespace(text[i]));
            }
            assert forall|k: int| 0 <= k < words(text).len() implies is_word(
                #[trigger] words(text)[k],
            ) by {
                if k > 0 {
                    assert(words(text)[k] == rest[k - 1]);
                }
            }
        }
    }
}

/// The words of a text are, put together, the text without its white space.
pub proof fn law_words_keep_characters(text: Seq<char>)
    ensures
        joined(words(text)) == text.filter(|c: char| !is_whitespace(c)),
    decreases text.len(),
{
    let visible = |c: char| !is_whitespace(c);
    if text.len() == 0 {
        reveal(Seq::filter);
    } else if is_whitespace(text[0]) {
        law_words_keep_characters(text.skip(1));
        lemma_filter_split(text, 1, visible);
        lemma_filter_none(text.take(1), visible);
        assert(text.skip(1).filter(visible) == Seq::<char>::empty() + text.skip(1).filter(visible));
    } else {
        let len = word_len(text) as int;
        lemma_word_len(text);
        law_words_keep_characters(text.skip(len));
        lemma_filter_split(text, len, visible);
        assert forall|i: int| 0 <= i < text.take(len).len() implies visible(
            #[trigger] text.take(len)[i],
        ) by {
            assert(!is_whitespace(text[i]));
        }
        lemma_filter_all(text.take(len), visible);
        let rest = words(text.skip(len));
        assert(words(text) == seq![text.take(len)] + rest);
        assert(words(text).skip(1) == rest);
    }
}

/// A text can be filtered in two parts.
pub(crate) proof fn lemma_filter_split(text: Seq<char>, at: int, keep: spec_fn(char) -> bool)
    requires
        0 <= at <= text.len(),
    ensures
        text.filter(keep) == text.take(at).filter(keep) + text.skip(at).filter(keep),
{
    Seq::filter_distributes_over_add(text.take(at), text.skip(at), keep);
    assert(text == text.take(at) + text.skip(at));
}

/// A filter that lets every character through changes nothing.
pub(crate) proof fn lemma_filter_all(text: Seq<char>, keep: spec_fn(char) -> bool)
    requires
        forall|i: int| 0 <= i < text.len() ==> keep(#[trigger] text[i]),
    ensures
        text.filter(keep) == text,
    decreases text.len(),
{
    reveal(Seq::filter);
    if text.len() > 0 {
        assert forall|i: int| 0 <= i < text.drop_last().len() implies keep(
            #[trigger] text.drop_last()[i],
        ) by {
            assert(keep(text[i]));
        }
        lemma_filter_all(text.drop_last(), keep);
        assert(keep(text[text.len() - 1]));
        assert(text.drop_last().push(text.last()) == text);
    }
}

/// A filter that lets no character through leaves nothing.
pub(crate) proof fn lemma_filter_none(text: Seq<char>, keep: spec_fn(char) -> bool)
    requires
        forall|i: int| 0 <= i < text.len() ==> !keep(#[trigger] text[i]),
    ensures
        text.filter(keep) == Seq::<char>::empty(),
    decreases text.len(),
{
    reveal(Seq::filter);
    if text.len() > 0 {
        assert forall|i: int| 0 <= i < text.drop_last().len() implies !keep(
            #[trigger] text.drop_last()[i],
        ) by {
            assert(!keep(text[i]));
        }
        lemma_filter_none(text.drop_last(), keep);
        assert(!keep(text[text.len() - 1]));
    }
}

/// No chunk is longer than allowed, none is empty unless the text is, and the
/// chunks are, put together, the text.
pub proof fn law_chunks_make_up_text(text: Seq<char>, max_len: nat)
    requires
        max_len > 0,
    ensures
        joined(chunks_of(text, max_len)) == text,
        forall|k: int|
            0 <= k < chunks_of(text, max_len).len() ==> (#[trigger] chunks_of(
                text,
                max_len,
            )[k]).len() <= max_len,
        text.len() > 0 ==> forall|k: int|
            0 <= k < chunks_of(text, max_len).len() ==> (#[trigger] chunks_of(
                text,
                max_len,
            )[k]).len() > 0,
    decreases text.len(),
{
    let chunks = chunks_of(text, max_len);
    if text.len() <= max_len {
        assert(chunks.skip(1) == Seq::<Seq<char>>::empty());
        assert(joined(chunks.skip(1)) == Seq::<char>::empty());
        assert(text + Seq::<char>::empty() == text);
    } else {
        let first = text.take(max_len as int);
        let rest = chunks_of(text.skip(max_len as int), max_len);
        law_chunks_make_up_text(text.skip(max_len as int), max_len);
        assert(chunks == seq![first] + rest);
        assert(chunks.skip(1) == rest);
        assert(first + text.skip(max_len as int) == text);
        assert forall|k: int| 0 <= k < chunks.len() implies 0 < (#[trigger] chunks[k]).len()
            <= max_len by {
            if k > 0 {
                assert(chunks[k] == rest[k - 1]);
            }
        }
    }
}

/// There is one chunk exactly if the text is no longer than allowed.
pub proof fn law_short_text_is_one_chunk(text: Seq<char>, max_len: nat)
    requires
        max_len > 0,
    ensures
        chunks_of(text, max_len).len() >= 1,
        chunks_of(text, max_len).len() == 1 <==> text.len() <= max_len,
    decreases text.len(),
{
    if text.len() > max_len {
        law_short_text_is_one_chunk(text.skip(max_len as int), max_len);
    }
}

/// Sending pauses after a post that was taken exactly if the text is longer than
/// one message may be.
pub proof fn law_pauses_for_long_text(session: SessionView, text: Seq<char>, status: u16)
    requires
        session.chunks == chunks_of(text, MAX_MESSAGE_LEN as nat),
        is_success(status),
    ensures
        session.reaction(status) == (if text.len() > MAX_MESSAGE_LEN {
            Reaction::Pause { millis: CHUNK_PAUSE_MILLIS }
        } else {
            Reaction::Continue
        }),
{
    law_short_text_is_one_chunk(text, MAX_MESSAGE_LEN as nat);
}

/// The chunks that get posted while these responses come, in order, each the
/// status of a response or none where no response came.
pub open spec fn posted(session: SessionView, responses: Seq<Option<u16>>) -> Seq<Seq<char>>
    decreases responses.len(),
{
    if !session.is_pending() || responses.len() == 0 {
        Seq::empty()
    } else {
        seq![session.current()] + posted(session.after(responses[0]), responses.skip(1))
    }
}

/// What becomes of sending when these responses come.
pub open spec fn left_after(session: SessionView, responses: Seq<Option<u16>>) -> SessionView
    decreases responses.len(),
{
    if !session.is_pending() || responses.len() == 0 {
        session
    } else {
        left_after(session.after(responses[0]), responses.skip(1))
    }
}

/// Where every post is taken, the chunks are posted one after the other, each
/// once, until all are sent.
pub proof fn law_all_chunks_posted(session: SessionView, responses: Seq<Option<u16>>)
    requires
        !session.failed,
        session.taken <= session.chunks.len(),
        responses.len() == session.chunks.len() - session.taken,
        forall|i: int| 0 <= i < responses.len() ==> is_taken(#[trigger] responses[i]),
    ensures
        posted(session, responses) == session.chunks.skip(session.taken as int),
        left_after(session, responses).is_finished(),
    decreases responses.len(),
{
    if responses.len() > 0 {
        assert(is_taken(responses[0]));
        assert forall|i: int| 0 <= i < responses.skip(1).len() implies is_taken(
            #[trigger] responses.skip(1)[i],
        ) by {
            assert(is_taken(responses[i + 1]));
        }
        law_all_chunks_posted(session.after(responses[0]), responses.skip(1));
        assert(seq![session.current()] + session.chunks.skip(session.taken as int + 1)
            == session.chunks.skip(session.taken as int));
    }
}

/// Where every post is taken, what gets posted is the whole text.
pub proof fn law_whole_text_posted(
    url: Seq<char>,
    text: Seq<char>,
    responses: Seq<Option<u16>>,
)
    requires
        responses.len() == SessionView::begin(url, text).chunks.len(),
        forall|i: int| 0 <= i < responses.len() ==> is_taken(#[trigger] responses[i]),
    ensures
        joined(posted(SessionView::begin(url, text), responses)) == text,
        left_after(SessionView::begin(url, text), responses).is_finished(),
{
    let session = SessionView::begin(url, text);
    law_all_chunks_posted(session, responses);
    law_chunks_make_up_text(text, MAX_MESSAGE_LEN as nat);
    assert(session.chunks.skip(0) == session.chunks);
}

/// A post that is refused, or gets no response, is the last one: whatever would
/// come after it, no chunk is posted again and no later chunk is posted, and the
/// message counts as failed.
pub proof fn law_failure_ends_sending(
    session: SessionView,
    responses: Seq<Option<u16>>,
    at: int,
)
    requires
        !session.failed,
        0 <= at < responses.len(),
        session.taken + at < session.chunks.len(),
        !is_taken(responses[at]),
        forall|i: int| 0 <= i < at ==> is_taken(#[trigger] responses[i]),
    ensures
        posted(session, responses) == session.chunks.subrange(
            session.taken as int,
            session.taken + at + 1,
        ),
        left_after(session, responses) == (SessionView {
            url: session.url,
            chunks: session.chunks,
            taken: (session.taken + at) as nat,
            failed: true,
        }),
    decreases responses.len(),
{
    let next = session.after(responses[0]);
    let rest = responses.skip(1);
    if at > 0 {
        assert(is_taken(responses[0]));
        assert forall|i: int| 0 <= i < at - 1 implies is_taken(#[trigger] rest[i]) by {
            assert(is_taken(responses[i + 1]));
        }
        law_failure_ends_sending(next, rest, at - 1);
        assert(seq![session.current()] + session.chunks.subrange(
            session.taken as int + 1,
            session.taken + at + 1,
        ) == session.chunks.subrange(session.taken as int, session.taken + at + 1));
    } else {
        assert(posted(next, rest) == Seq::<Seq<char>>::empty());
        assert(left_after(next, rest) == next);
        assert(seq![session.current()] + Seq::<Seq<char>>::empty() == session.chunks.subrange(
            session.taken as int,
            session.taken as int + 1,
        ));
    }
}

/// As long as no post has failed, what was posted are the chunks that were taken,
/// in order, each once.
pub proof fn law_posted_are_taken(session: SessionView, responses: Seq<Option<u16>>)
    requires
        session.taken <= session.chunks.len(),
        !left_after(session, responses).failed,
    ensures
        session.taken <= left_after(session, responses).taken <= session.chunks.len(),
        left_after(session, responses).chunks == session.chunks,
        posted(session, responses) == session.chunks.subrange(
            session.taken as int,
            left_after(session, responses).taken as int,
        ),
    decreases responses.len(),
{
    if session.is_pending() && responses.len() > 0 {
        let next = session.after(responses[0]);
        let rest = responses.skip(1);
        assert(is_taken(responses[0])) by {
            if !is_taken(responses[0]) {
                assert(left_after(next, rest) == next);
            }
        }
        law_posted_are_taken(next, rest);
        let end = left_after(session, responses).taken as int;
        assert(seq![session.current()] + session.chunks.subrange(session.taken as int + 1, end)
            == session.chunks.subrange(session.taken as int, end));
    } else {
        assert(session.chunks.subrange(session.taken as int, session.taken as int) == Seq::<
            Seq<char>,
        >::empty());
    }
}

/// A text counts as sent only if the whole of it was posted.
pub proof fn law_sent_means_whole_text(
    url: Seq<char>,
    text: Seq<char>,
    responses: Seq<Option<u16>>,
)
    requires
        left_after(SessionView::begin(url, text), responses).is_finished(),
    ensures
        joined(posted(SessionView::begin(url, text), responses)) == text,
{
    let session = SessionView::begin(url, text);
    law_posted_are_taken(session, responses);
    law_chunks_make_up_text(text, MAX_MESSAGE_LEN as nat);
    assert(session.chunks.subrange(0, session.chunks.len() as int) == session.chunks);
}

} // verus!

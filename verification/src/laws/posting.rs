//! What of a content is posted.
use vstd::prelude::*;

use crate::form::form_text;
use crate::json::json_object_text;
use crate::laws::{
    law_all_chunks_posted, law_chunks_make_up_text, law_posted_are_taken,
    law_short_text_is_one_chunk, left_after, posted,
};
use crate::send::{
    chunk_request, chunks_of, is_taken, rejection_text, status_line, text_to_send, PostRequest,
    Reaction, RequestView, SessionView,
};
use crate::text::joined;
use crate::types::ContentView;

verus! {

/// The start of sending a content.
pub open spec fn begin_content(url: Seq<char>, content: ContentView) -> SessionView {
    SessionView::begin(url, text_to_send(content))
}

/// The requests that are made while these responses come, in order.
pub open spec fn requested(session: SessionView, responses: Seq<Option<u16>>) -> Seq<RequestView>
    decreases responses.len(),
{
    if !session.is_pending() || responses.len() == 0 {
        Seq::empty()
    } else {
        seq![chunk_request(session.url, session.current())] + requested(
            session.after(responses[0]),
            responses.skip(1),
        )
    }
}

/// Whether every post gets a response that says that it was carried out.
pub open spec fn all_succeed(responses: Seq<Option<u16>>) -> bool {
    forall|i: int|
        0 <= i < responses.len() ==> ((#[trigger] responses[i]) matches Some(status) && 200 <= status
            <= 299)
}

/// A post is taken exactly if its response has a status from 200 to 299.
pub proof fn law_taken_statuses(response: Option<u16>)
    ensures
        is_taken(response) <==> (match response {
            Some(status) => 200 <= status <= 299,
            None => false,
        }),
{
}

/// Pieces put together are the same text however they are put together.
pub proof fn law_joined_is_flat(pieces: Seq<Seq<char>>)
    ensures
        joined(pieces) == pieces.flatten(),
    decreases pieces.len(),
{
    if pieces.len() > 0 {
        law_joined_is_flat(pieces.skip(1));
        assert(pieces.skip(1) == pieces.drop_first());
    }
}

/// Whatever text is given to send: once every post was taken, what was posted
/// is, put together, exactly that text.
pub proof fn law_given_text_is_posted(
    url: Seq<char>,
    text: Seq<char>,
    responses: Seq<Option<u16>>,
)
    requires
        left_after(begin_content(url, ContentView::Text(text)), responses).is_finished(),
    ensures
        posted(begin_content(url, ContentView::Text(text)), responses).flatten() == text,
{
    let session = begin_content(url, ContentView::Text(text));
    law_posted_are_taken(session, responses);
    law_chunks_make_up_text(text, 65535);
    assert(session.chunks.subrange(0, session.chunks.len() as int) == session.chunks);
    law_joined_is_flat(session.chunks);
}

/// Chunks that are given to send are posted as they are: once every post was
/// taken, each was posted once, in order.
pub proof fn law_given_chunks_are_posted(
    url: Seq<char>,
    chunks: Seq<Seq<char>>,
    responses: Seq<Option<u16>>,
)
    requires
        left_after(SessionView::begin_chunks(url, chunks), responses).is_finished(),
    ensures
        posted(SessionView::begin_chunks(url, chunks), responses) == chunks,
        requested(SessionView::begin_chunks(url, chunks), responses).len() == chunks.len(),
        forall|k: int|
            0 <= k < chunks.len() ==> (#[trigger] requested(
                SessionView::begin_chunks(url, chunks),
                responses,
            )[k]).url == url,
{
    let session = SessionView::begin_chunks(url, chunks);
    law_posted_are_taken(session, responses);
    lemma_requests(session, responses);
    assert(chunks.subrange(0, chunks.len() as int) == chunks);
}

/// A content other than text is announced as such, in one post.
pub proof fn law_other_content_is_announced(
    url: Seq<char>,
    content: ContentView,
    responses: Seq<Option<u16>>,
)
    requires
        content !is Text,
        responses.len() > 0,
    ensures
        posted(begin_content(url, content), responses) == seq!["(Unsupported content type)"@],
        is_taken(responses[0]) ==> left_after(
            begin_content(url, content),
            responses,
        ).is_finished(),
{
    let session = begin_content(url, content);
    let next = session.after(responses[0]);
    let rest = responses.skip(1);
    reveal_strlit("(Unsupported content type)");
    assert(session.chunks == seq!["(Unsupported content type)"@]);
    assert(posted(next, rest) == Seq::<Seq<char>>::empty());
    assert(left_after(next, rest) == next);
}

/// Where every post succeeds, sending comes to its end after as many posts as
/// there are chunks.
pub proof fn law_success_finishes(
    url: Seq<char>,
    content: ContentView,
    responses: Seq<Option<u16>>,
)
    requires
        all_succeed(responses),
        responses.len() == begin_content(url, content).chunks.len(),
    ensures
        left_after(begin_content(url, content), responses).is_finished(),
        posted(begin_content(url, content), responses).len() == responses.len(),
{
    let session = begin_content(url, content);
    assert forall|i: int| 0 <= i < responses.len() implies is_taken(#[trigger] responses[i]) by {
        law_taken_statuses(responses[i]);
    }
    law_all_chunks_posted(session, responses);
}

/// Whatever text is given to send, each post but the last carries 65535
/// characters of it, and the last one those that are left. So there is one post
/// for a text that is no longer than that.
pub proof fn law_posts_are_full(url: Seq<char>, text: Seq<char>)
    ensures
        ({
            let chunks = begin_content(url, ContentView::Text(text)).chunks;
            &&& chunks.len() > 0
            &&& forall|k: int|
                0 <= k < chunks.len() - 1 ==> (#[trigger] chunks[k]).len() == 65535
            &&& chunks.last().len() <= 65535
            &&& text.len() > 0 ==> chunks.last().len() > 0
            &&& text.len() <= 65535 ==> chunks == seq![text]
        }),
{
    lemma_full_chunks(text, 65535);
}

/// Cutting fills every chunk but the last, and leaves nothing out.
pub proof fn law_chunks_are_full(text: Seq<char>, max_len: nat)
    requires
        max_len > 0,
    ensures
        chunks_of(text, max_len).flatten() == text,
        chunks_of(text, max_len).len() > 0,
        forall|k: int|
            0 <= k < chunks_of(text, max_len).len() - 1 ==> (#[trigger] chunks_of(
                text,
                max_len,
            )[k]).len() == max_len,
        chunks_of(text, max_len).last().len() <= max_len,
        text.len() > 0 ==> chunks_of(text, max_len).last().len() > 0,
{
    lemma_full_chunks(text, max_len);
    law_chunks_make_up_text(text, max_len);
    law_joined_is_flat(chunks_of(text, max_len));
}

/// All chunks but the last are as long as allowed.
proof fn lemma_full_chunks(text: Seq<char>, max_len: nat)
    requires
        max_len > 0,
    ensures
        chunks_of(text, max_len).len() > 0,
        forall|k: int|
            0 <= k < chunks_of(text, max_len).len() - 1 ==> (#[trigger] chunks_of(
                text,
                max_len,
            )[k]).len() == max_len,
        chunks_of(text, max_len).last().len() <= max_len,
        text.len() > 0 ==> chunks_of(text, max_len).last().len() > 0,
        text.len() <= max_len ==> chunks_of(text, max_len) == seq![text],
    decreases text.len(),
{
    if text.len() > max_len {
        let first = text.take(max_len as int);
        let rest = chunks_of(text.skip(max_len as int), max_len);
        lemma_full_chunks(text.skip(max_len as int), max_len);
        let chunks = chunks_of(text, max_len);
        assert(chunks == seq![first] + rest);
        assert(chunks.last() == rest.last());
        assert forall|k: int| 0 <= k < chunks.len() - 1 implies (#[trigger] chunks[k]).len()
            == max_len by {
            if k > 0 {
                assert(chunks[k] == rest[k - 1]);
            }
        }
    }
}

/// Every request goes to the URL that was given, says that it is a form, and
/// carries one field `payload`: the JSON object whose one member `text` is the
/// chunk to post. There is one request for each chunk, in order.
pub proof fn law_requests_carry_chunks(
    url: Seq<char>,
    content: ContentView,
    responses: Seq<Option<u16>>,
)
    ensures
        ({
            let requests = requested(begin_content(url, content), responses);
            let chunks = posted(begin_content(url, content), responses);
            &&& requests.len() == chunks.len()
            &&& forall|k: int|
                0 <= k < requests.len() ==> {
                    &&& (#[trigger] requests[k]).url == url
                    &&& requests[k].content_type == "application/x-www-form-urlencoded"@
                    &&& requests[k].body == form_text(
                        "payload"@,
                        json_object_text("text"@, chunks[k]),
                    )
                }
        }),
{
    lemma_requests(begin_content(url, content), responses);
}

/// The requests of a session carry its chunks to its URL.
proof fn lemma_requests(session: SessionView, responses: Seq<Option<u16>>)
    ensures
        requested(session, responses).len() == posted(session, responses).len(),
        forall|k: int|
            0 <= k < posted(session, responses).len() ==> #[trigger] requested(
                session,
                responses,
            )[k] == chunk_request(session.url, posted(session, responses)[k]),
    decreases responses.len(),
{
    if session.is_pending() && responses.len() > 0 {
        let next = session.after(responses[0]);
        let rest = responses.skip(1);
        lemma_requests(next, rest);
        assert forall|k: int| 0 <= k < posted(session, responses).len() implies #[trigger] requested(
            session,
            responses,
        )[k] == chunk_request(session.url, posted(session, responses)[k]) by {
            if k > 0 {
                assert(requested(session, responses)[k] == requested(next, rest)[k - 1]);
                assert(posted(session, responses)[k] == posted(next, rest)[k - 1]);
            }
        }
    }
}

/// A request reads as what it holds.
pub proof fn law_request_as_held(request: PostRequest)
    ensures
        request@.url == request.url@,
        request@.content_type == request.content_type@,
        request@.body == request.body@,
{
}

/// After a post that succeeded, there is a pause of 200 milliseconds where the
/// given text takes more than one post, and none otherwise. After any other
/// response sending is given up.
pub proof fn law_reaction_to_response(
    session: SessionView,
    url: Seq<char>,
    text: Seq<char>,
    status: u16,
)
    requires
        session.chunks == begin_content(url, ContentView::Text(text)).chunks,
    ensures
        !(200 <= status <= 299) <==> session.reaction(status) == Reaction::GiveUp,
        200 <= status <= 299 && text.len() > 65535 ==> session.reaction(status)
            == (Reaction::Pause { millis: 200 }),
        200 <= status <= 299 && text.len() <= 65535 ==> session.reaction(status)
            == Reaction::Continue,
{
    law_short_text_is_one_chunk(text, 65535);
}

/// What is said of a refused post names the status, and ends with the text of
/// the answer, all of it, where it could be read.
pub proof fn law_rejection_tells_answer(status: u16, answer: Seq<char>)
    ensures
        rejection_text(status, None) == "Synology Chat incoming webhook error "@ + status_line(
            status,
        ) + seq![':', ' '],
        rejection_text(status, Some(answer)) == rejection_text(status, None) + answer,
{
    reveal_strlit(": ");
    assert(": "@ == seq![':', ' ']);
    let front = "Synology Chat incoming webhook error "@ + status_line(status) + ": "@;
    assert(front + Seq::<char>::empty() == front);
}

} // verus!

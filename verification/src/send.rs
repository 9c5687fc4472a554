//! Sending: what is posted to Synology Chat, and in which steps.
//!
//! A message is posted as the form field `payload`, which holds JSON with the
//! message as its member `text`. A message that is too long goes out in chunks,
//! one post after the other.
use vstd::prelude::*;
use vstd::utf8::encode_utf8;

use crate::form::{form_text, write_form};
use crate::json::{json_object_text, json_text_fields, no_fields, write_object, Field, Fields};
use crate::payload::{body_fields, PayloadError};
use crate::text::{chars_of, text_between, texts};
use crate::types::{optional_text, ChannelContent, ContentView};

verus! {

/// How many characters Synology Chat takes in one message.
pub const MAX_MESSAGE_LEN: usize = 65535;

/// How long to wait after each post of a message in several chunks, in
/// milliseconds.
pub const CHUNK_PAUSE_MILLIS: u64 = 200;

/// A text cut into pieces of `max_len` characters, the last of which may be
/// shorter. A text that is no longer than that stays in one piece.
pub open spec fn chunks_of(text: Seq<char>, max_len: nat) -> Seq<Seq<char>>
    decreases text.len(),
{
    if max_len == 0 || text.len() <= max_len {
        seq![text]
    } else {
        seq![text.take(max_len as int)] + chunks_of(text.skip(max_len as int), max_len)
    }
}

/// The text to send for a content. Only text can be sent.
pub open spec fn text_to_send(content: ContentView) -> Seq<char> {
    match content {
        ContentView::Text(text) => text,
        _ => "(Unsupported content type)"@,
    }
}

/// The form body that carries a chunk.
pub open spec fn chunk_body(chunk: Seq<char>) -> Seq<char> {
    form_text("payload"@, json_object_text("text"@, chunk))
}

/// Whether an HTTP status code says that a request was carried out.
pub open spec fn is_success(status: u16) -> bool {
    200 <= status < 300
}

/// An HTTP status code with its name, as `reqwest` shows it.
pub uninterp spec fn status_line(status: u16) -> Seq<char>;

/// What went wrong when Synology Chat refused a post.
pub open spec fn rejection_text(status: u16, answer: Option<Seq<char>>) -> Seq<char> {
    "Synology Chat incoming webhook error "@ + status_line(status) + ": "@ + match answer {
        Some(answer) => answer,
        None => Seq::empty(),
    }
}

/// `reqwest::StatusCode`'s `Display`: a status code with its name. What it shows
/// depends on the code alone. There are codes from 100 to 999 only.
#[verifier::external_body]
pub(crate) fn show_status(status: u16) -> (line: String)
    requires
        100 <= status <= 999,
    ensures
        line@ == status_line(status),
{
    reqwest::StatusCode::from_u16(status).unwrap().to_string()
}

/// Cuts a text into chunks of `max_len` characters at most.
///
/// The limit is Synology Chat's. It says nothing of where to cut: here every
/// chunk but the last is as long as it may be, and nothing is left out.
pub fn split_message(text: &str, max_len: usize) -> (chunks: Vec<String>)
    requires
        max_len > 0,
    ensures
        texts(chunks@) == chunks_of(text@, max_len as nat),
{
    let chars = chars_of(text);
    let mut chunks: Vec<String> = Vec::new();
    let mut start: usize = 0;
    let ghost all = chunks_of(text@, max_len as nat);
    assert(chars@.skip(0) == text@);
    assert(texts(chunks@) + all == all);
    while chars.len() - start > max_len
        invariant
            start <= chars@.len(),
            max_len > 0,
            texts(chunks@) + chunks_of(chars@.skip(start as int), max_len as nat) == all,
        decreases chars.len() - start,
    {
        let ghost rest = chars@.skip(start as int);
        let ghost before = texts(chunks@);
        let ghost piece = rest.take(max_len as int);
        let end: usize = start + max_len;
        assert(piece == chars@.subrange(start as int, end as int));
        assert(rest.skip(max_len as int) == chars@.skip(end as int));
        chunks.push(text_between(&chars, start, end));
        assert(texts(chunks@) == before.push(piece));
        assert(before + (seq![piece] + chunks_of(chars@.skip(end as int), max_len as nat))
            == before.push(piece) + chunks_of(chars@.skip(end as int), max_len as nat));
        start = end;
    }
    let ghost before = texts(chunks@);
    let ghost rest = chars@.skip(start as int);
    assert(rest == chars@.subrange(start as int, chars@.len() as int));
    chunks.push(text_between(&chars, start, chars.len()));
    assert(texts(chunks@) == before.push(rest));
    assert(before + seq![rest] == before.push(rest));
    chunks
}

/// Picks the text to send for a content.
pub fn outgoing_text(content: ChannelContent) -> (text: String)
    ensures
        text@ == text_to_send(content@),
{
    match content {
        ChannelContent::Text(text) => text,
        _ => "(Unsupported content type)".to_owned(),
    }
}

/// Writes the form body that carries a JSON text as its payload.
///
/// Whoever reads such a body finds in it the payload that the text stands for,
/// or, where the text is not JSON, that it is not.
pub fn encode_payload(json: &str) -> (body: String)
    ensures
        body@ == form_text("payload"@, json@),
        body_fields(encode_utf8(body@)) == match json_text_fields(json@) {
            Some(fields) => Ok::<Fields, PayloadError>(fields),
            None => Err::<Fields, PayloadError>(PayloadError::InvalidJson),
        },
{
    write_form("payload", json)
}

/// Writes the form body that carries a chunk.
///
/// Whoever reads such a body finds in it a payload whose one member `text` is
/// the chunk.
pub fn encode_chunk(chunk: &str) -> (body: String)
    ensures
        body@ == chunk_body(chunk@),
        body_fields(encode_utf8(body@)) == Ok::<Fields, PayloadError>(
            no_fields().insert("text"@, Field::Text(chunk@)),
        ),
{
    proof {
        reveal_strlit("text");
        assert("text"@[0] == 't');
    }
    match write_object("text", chunk) {
        Ok(json) => encode_payload(json.as_str()),
        // Never: an object with one string can always be written.
        Err(_) => String::new(),
    }
}

/// Says what went wrong when Synology Chat refused a post with this status, and
/// with this text in its answer, where it could be read.
pub fn rejection_message(status: u16, answer: Option<String>) -> (message: String)
    requires
        100 <= status <= 999,
    ensures
        message@ == rejection_text(status, optional_text(answer)),
{
    let mut message = "Synology Chat incoming webhook error ".to_owned();
    let line = show_status(status);
    message.append(line.as_str());
    message.append(": ");
    match answer {
        Some(answer) => {
            message.append(answer.as_str());
        },
        None => {
            assert(message@ + Seq::<char>::empty() == message@);
        },
    }
    message
}

/// A request to make: post this body, of this content type, to this URL.
#[derive(Debug, PartialEq, Eq)]
pub struct PostRequest {
    pub url: String,
    pub content_type: &'static str,
    pub body: String,
}

/// The specification of a `PostRequest`.
pub struct RequestView {
    pub url: Seq<char>,
    pub content_type: Seq<char>,
    pub body: Seq<char>,
}

impl View for PostRequest {
    type V = RequestView;

    open spec fn view(&self) -> RequestView {
        RequestView { url: self.url@, content_type: self.content_type@, body: self.body@ }
    }
}

/// The request that posts a chunk.
pub open spec fn chunk_request(url: Seq<char>, chunk: Seq<char>) -> RequestView {
    RequestView {
        url,
        content_type: "application/x-www-form-urlencoded"@,
        body: chunk_body(chunk),
    }
}

/// A message on its way out: where it goes, its chunks, how many of them Synology
/// Chat has taken, and whether a post has failed.
pub struct SendSession {
    url: String,
    chunks: Vec<String>,
    taken: usize,
    failed: bool,
}

/// The specification of a `SendSession`.
pub struct SessionView {
    pub url: Seq<char>,
    pub chunks: Seq<Seq<char>>,
    pub taken: nat,
    pub failed: bool,
}

impl View for SendSession {
    type V = SessionView;

    closed spec fn view(&self) -> SessionView {
        SessionView {
            url: self.url@,
            chunks: texts(self.chunks@),
            taken: self.taken as nat,
            failed: self.failed,
        }
    }
}

/// What to do next to send a message.
#[derive(Debug, PartialEq, Eq)]
pub enum SendStep {
    /// Make this request, and report what comes of it.
    Post(PostRequest),
    /// Nothing: all of the message is sent.
    Finished,
    /// Nothing: a post has failed, and no other is made.
    Failed,
}

/// What to do about the response to a post.
#[derive(Clone, Copy, Debug, PartialEq, Eq)]
pub enum Reaction {
    /// Go on with the next step.
    Continue,
    /// Wait, then go on with the next step.
    Pause { millis: u64 },
    /// Read the text of the response and give up with a rejection message.
    GiveUp,
}

/// Whether a post was taken: there is a response, and its status is a success.
pub open spec fn is_taken(response: Option<u16>) -> bool {
    response matches Some(status) && is_success(status)
}

impl SessionView {
    /// The start of sending these chunks.
    pub open spec fn begin_chunks(url: Seq<char>, chunks: Seq<Seq<char>>) -> SessionView {
        SessionView { url, chunks, taken: 0, failed: false }
    }

    /// The start of sending a text.
    pub open spec fn begin(url: Seq<char>, text: Seq<char>) -> SessionView {
        SessionView::begin_chunks(url, chunks_of(text, MAX_MESSAGE_LEN as nat))
    }

    /// Whether there is a chunk left to post, and no post has failed.
    pub open spec fn is_pending(self) -> bool {
        !self.failed && self.taken < self.chunks.len()
    }

    /// Whether every chunk was taken.
    pub open spec fn is_finished(self) -> bool {
        !self.failed && self.taken == self.chunks.len()
    }

    /// The chunk to post next.
    pub open spec fn current(self) -> Seq<char> {
        self.chunks[self.taken as int]
    }

    /// What becomes of sending with the status of the response to a post, or
    /// with none where no response came.
    pub open spec fn after(self, response: Option<u16>) -> SessionView {
        if is_taken(response) {
            SessionView { taken: self.taken + 1, ..self }
        } else {
            SessionView { failed: true, ..self }
        }
    }

    /// What to do about the response to a post.
    pub open spec fn reaction(self, status: u16) -> Reaction {
        if !is_success(status) {
            Reaction::GiveUp
        } else if self.chunks.len() > 1 {
            Reaction::Pause { millis: CHUNK_PAUSE_MILLIS }
        } else {
            Reaction::Continue
        }
    }
}

impl SendSession {
    /// Never more chunks are taken than there are.
    #[verifier::type_invariant]
    spec fn is_valid(self) -> bool {
        self.taken <= self.chunks@.len()
    }

    /// Begins to send a content to a URL.
    pub fn new(url: String, content: ChannelContent) -> (session: SendSession)
        ensures
            session@ == SessionView::begin(url@, text_to_send(content@)),
    {
        let text = outgoing_text(content);
        SendSession::from_chunks(url, split_message(text.as_str(), MAX_MESSAGE_LEN))
    }

    /// Begins to send a message that is cut into chunks already.
    pub fn from_chunks(url: String, chunks: Vec<String>) -> (session: SendSession)
        ensures
            session@ == SessionView::begin_chunks(url@, texts(chunks@)),
    {
        SendSession { url, chunks, taken: 0, failed: false }
    }

    /// Tells what to do next.
    ///
    /// Whoever reads a body to post finds the current chunk in it, as the one
    /// member `text` of the payload. Once a post has failed, there is none any
    /// more.
    pub fn next_step(&self) -> (step: SendStep)
        ensures
            match step {
                SendStep::Post(request) => {
                    &&& self@.is_pending()
                    &&& request@ == chunk_request(self@.url, self@.current())
                    &&& body_fields(encode_utf8(request.body@)) == Ok::<Fields, PayloadError>(
                        no_fields().insert("text"@, Field::Text(self@.current())),
                    )
                },
                SendStep::Finished => self@.is_finished(),
                SendStep::Failed => self@.failed,
            },
    {
        proof {
            use_type_invariant(self);
        }
        if self.failed {
            SendStep::Failed
        } else if self.taken < self.chunks.len() {
            SendStep::Post(
                PostRequest {
                    url: self.url.clone(),
                    content_type: "application/x-www-form-urlencoded",
                    body: encode_chunk(self.chunks[self.taken].as_str()),
                },
            )
        } else {
            SendStep::Finished
        }
    }

    /// Takes in the status of the response to the post that was the next step.
    pub fn on_response(&mut self, status: u16) -> (reaction: Reaction)
        requires
            old(self)@.is_pending(),
        ensures
            final(self)@ == old(self)@.after(Some(status)),
            reaction == old(self)@.reaction(status),
    {
        if status >= 200 && status < 300 {
            let count: usize = self.chunks.len();
            assert(self.taken < count);
            self.taken = self.taken + 1;
            if count > 1 {
                Reaction::Pause { millis: CHUNK_PAUSE_MILLIS }
            } else {
                Reaction::Continue
            }
        } else {
            self.failed = true;
            Reaction::GiveUp
        }
    }

    /// Takes in that the post that was the next step got no response.
    pub fn on_no_response(&mut self)
        requires
            old(self)@.is_pending(),
        ensures
            final(self)@ == old(self)@.after(None),
            !final(self)@.is_pending(),
    {
        self.failed = true;
    }
}

} // verus!

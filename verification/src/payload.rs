//! The payload of an outgoing webhook, and where in a request it stands.
use vstd::prelude::*;
use vstd::utf8::encode_utf8;

use crate::decimal::{parse_u64, parsed_u64};
use crate::form::{form_pairs, only_ampersands, opens_with_brace, pairs_view, parse_form};
use crate::json::{
    json_bytes_fields, json_text_fields, map_fields, map_insert, map_new, member_str, member_u64,
    no_fields, number_field, object, parse_bytes, parse_text, text_field, value_fields, Field,
    FieldValue, Fields,
};
use crate::text::chars_of;

verus! {

/// The payload of a webhook: a JSON value, of which only the members count.
pub struct Payload {
    json: serde_json::Value,
}

impl View for Payload {
    type V = Fields;

    closed spec fn view(&self) -> Fields {
        value_fields(self.json)
    }
}

/// A text is not JSON.
#[derive(Clone, Copy, Debug, PartialEq, Eq)]
pub struct NotJson;

/// Why a request holds no payload.
#[derive(Clone, Copy, Debug, PartialEq, Eq)]
pub enum PayloadError {
    /// The field that should hold the payload does not hold JSON.
    InvalidJson,
    /// There is neither a field nor JSON.
    Missing,
}

/// Where a request carries its payload.
#[derive(Debug, PartialEq, Eq)]
pub enum PayloadSource {
    /// As JSON in a form field of its own.
    Json(String),
    /// As the body itself, which has these form fields if it is no JSON.
    Body(Vec<(String, String)>),
}

/// The specification of a `PayloadSource`.
pub enum SourceView {
    Json(Seq<char>),
    Body(Seq<(Seq<char>, Seq<char>)>),
}

impl View for PayloadSource {
    type V = SourceView;

    open spec fn view(&self) -> SourceView {
        match self {
            PayloadSource::Json(text) => SourceView::Json(text@),
            PayloadSource::Body(pairs) => SourceView::Body(pairs_view(pairs@)),
        }
    }
}

/// The members in a list, the last of each name.
pub open spec fn member_fields(members: Seq<(Seq<char>, Field)>) -> Fields
    decreases members.len(),
{
    if members.len() == 0 {
        no_fields()
    } else {
        member_fields(members.drop_last()).insert(members.last().0, members.last().1)
    }
}

/// A list of members, with their values as they read.
pub open spec fn members_view(members: Seq<(String, FieldValue)>) -> Seq<(Seq<char>, Field)> {
    Seq::new(members.len(), |i: int| (members[i].0@, members[i].1@))
}

/// A form field as a member: a number where its text stands for one, a string
/// otherwise.
pub open spec fn form_field(value: Seq<char>) -> Field {
    match parsed_u64(value) {
        Some(number) => Field::Number(number),
        None => Field::Text(value),
    }
}

/// The form fields as members.
pub open spec fn form_members(pairs: Seq<(Seq<char>, Seq<char>)>) -> Seq<(Seq<char>, Field)> {
    Seq::new(pairs.len(), |i: int| (pairs[i].0, form_field(pairs[i].1)))
}

/// The value of the first pair of a name.
pub open spec fn first_named(pairs: Seq<(Seq<char>, Seq<char>)>, name: Seq<char>) -> Option<
    Seq<char>,
>
    decreases pairs.len(),
{
    if pairs.len() == 0 {
        None
    } else if pairs[0].0 == name {
        Some(pairs[0].1)
    } else {
        first_named(pairs.skip(1), name)
    }
}

/// Where a request with these form fields carries its payload.
pub open spec fn source_of(pairs: Seq<(Seq<char>, Seq<char>)>) -> SourceView {
    match first_named(pairs, "payload"@) {
        Some(text) => SourceView::Json(text),
        None => SourceView::Body(pairs),
    }
}

/// What reading a payload came to.
pub open spec fn payload_view(payload: Result<Payload, PayloadError>) -> Result<
    Fields,
    PayloadError,
> {
    match payload {
        Ok(payload) => Ok(payload@),
        Err(error) => Err(error),
    }
}

/// The members of a payload without a form field of its own: those of the body,
/// where it is JSON, and otherwise its form fields.
pub open spec fn unnamed_fields(
    direct: Option<Fields>,
    pairs: Seq<(Seq<char>, Seq<char>)>,
) -> Result<Fields, PayloadError> {
    match direct {
        Some(fields) => Ok(fields),
        None => if pairs.len() > 0 {
            Ok(member_fields(form_members(pairs)))
        } else {
            Err(PayloadError::Missing)
        },
    }
}

/// The members of the payload that a request body carries.
pub open spec fn body_fields(body: Seq<u8>) -> Result<Fields, PayloadError> {
    match source_of(form_pairs(body)) {
        SourceView::Json(text) => match json_text_fields(text) {
            Some(fields) => Ok(fields),
            None => Err(PayloadError::InvalidJson),
        },
        SourceView::Body(pairs) => unnamed_fields(json_bytes_fields(body), pairs),
    }
}

/// Reads one form field as a member.
pub fn form_value(value: &str) -> (field: FieldValue)
    ensures
        field@ == form_field(value@),
{
    let chars = chars_of(value);
    match parse_u64(&chars) {
        Some(number) => FieldValue::Number(number),
        None => FieldValue::Text(value.to_owned()),
    }
}

impl PayloadSource {
    /// Finds where a request with these form fields carries its payload.
    pub fn of_pairs(pairs: Vec<(String, String)>) -> (source: PayloadSource)
        ensures
            source@ == source_of(pairs_view(pairs@)),
    {
        let name: String = "payload".to_owned();
        let ghost all = pairs_view(pairs@);
        let mut next: usize = 0;
        assert(all.skip(0) == all);
        while next < pairs.len()
            invariant
                next <= pairs@.len(),
                all == pairs_view(pairs@),
                name@ == "payload"@,
                first_named(all, "payload"@) == first_named(all.skip(next as int), "payload"@),
            decreases pairs.len() - next,
        {
            assert(all.skip(next as int).skip(1) == all.skip(next + 1));
            if pairs[next].0 == name {
                return PayloadSource::Json(pairs[next].1.clone());
            }
            next = next + 1;
        }
        PayloadSource::Body(pairs)
    }
}

impl Payload {
    /// Makes a payload of members. Where a name comes more than once, the last
    /// member of that name counts.
    pub fn from_members(members: Vec<(String, FieldValue)>) -> (payload: Payload)
        ensures
            payload@ == member_fields(members_view(members@)),
    {
        let ghost all = members_view(members@);
        let mut map = map_new();
        let mut next: usize = 0;
        assert(all.take(0) == Seq::<(Seq<char>, Field)>::empty());
        while next < members.len()
            invariant
                next <= members@.len(),
                all == members_view(members@),
                map_fields(map) == member_fields(all.take(next as int)),
            decreases members.len() - next,
        {
            assert(all.take(next + 1).drop_last() == all.take(next as int));
            let value = match &members[next].1 {
                FieldValue::Text(text) => FieldValue::Text(text.clone()),
                FieldValue::Number(number) => FieldValue::Number(*number),
            };
            map_insert(&mut map, members[next].0.clone(), value);
            next = next + 1;
        }
        assert(all.take(next as int) == all);
        Payload { json: object(map) }
    }

    /// Makes a payload of form fields.
    pub fn from_pairs(pairs: &Vec<(String, String)>) -> (payload: Payload)
        ensures
            payload@ == member_fields(form_members(pairs_view(pairs@))),
    {
        let mut members: Vec<(String, FieldValue)> = Vec::new();
        let mut next: usize = 0;
        while next < pairs.len()
            invariant
                next <= pairs@.len(),
                members_view(members@) == form_members(pairs_view(pairs@)).take(next as int),
            decreases pairs.len() - next,
        {
            let name = pairs[next].0.clone();
            let value = form_value(pairs[next].1.as_str());
            let ghost before = members@;
            members.push((name, value));
            assert(members_view(members@) == members_view(before).push((name@, value@)));
            next = next + 1;
        }
        assert(form_members(pairs_view(pairs@)).take(next as int) == form_members(
            pairs_view(pairs@),
        ));
        Payload::from_members(members)
    }

    /// Reads a payload that is written as JSON. Its bytes read the same.
    pub fn from_json(text: &str) -> (payload: Result<Payload, NotJson>)
        ensures
            match payload {
                Ok(payload) => json_text_fields(text@) == Some(payload@),
                Err(_) => json_text_fields(text@) is None,
            },
            json_bytes_fields(encode_utf8(text@)) == json_text_fields(text@),
    {
        match parse_text(text) {
            Ok(json) => Ok(Payload { json }),
            Err(_) => Err(NotJson),
        }
    }

    /// Reads a payload that is written as JSON, given as bytes.
    pub fn from_json_bytes(bytes: &[u8]) -> (payload: Result<Payload, NotJson>)
        ensures
            match payload {
                Ok(payload) => json_bytes_fields(bytes@) == Some(payload@),
                Err(_) => json_bytes_fields(bytes@) is None,
            },
            only_ampersands(bytes@) ==> payload is Err,
    {
        match parse_bytes(bytes) {
            Ok(json) => Ok(Payload { json }),
            Err(_) => Err(NotJson),
        }
    }

    /// Picks the payload of a request that has no form field for it: what the
    /// body holds as JSON, or else its form fields.
    pub fn from_unnamed(
        direct: Result<Payload, NotJson>,
        pairs: &Vec<(String, String)>,
    ) -> (payload: Result<Payload, PayloadError>)
        ensures
            payload_view(payload) == unnamed_fields(
                match direct {
                    Ok(direct) => Some(direct@),
                    Err(_) => None,
                },
                pairs_view(pairs@),
            ),
    {
        match direct {
            Ok(direct) => Ok(direct),
            Err(_) => if pairs.len() > 0 {
                Ok(Payload::from_pairs(pairs))
            } else {
                Err(PayloadError::Missing)
            },
        }
    }

    /// Reads the payload that a request body carries.
    ///
    /// It stands as JSON in the form field `payload`. Without such a field the
    /// body itself is JSON, or else its form fields are the members.
    pub fn from_body(body: &[u8]) -> (payload: Result<Payload, PayloadError>)
        ensures
            payload_view(payload) == body_fields(body@),
            payload == Err::<Payload, PayloadError>(PayloadError::Missing) <==> only_ampersands(
                body@,
            ),
            opens_with_brace(body@) && json_bytes_fields(body@) is Some ==> payload_view(payload)
                == Ok::<Fields, PayloadError>(json_bytes_fields(body@)->Some_0),
    {
        let pairs = parse_form(body);
        proof {
            reveal_strlit("payload");
            let all = pairs_view(pairs@);
            if opens_with_brace(body@) {
                assert(all[0].0[0] == '{');
                assert("payload"@[0] == 'p');
                assert(all.skip(1).len() == 0);
                assert(first_named(all.skip(1), "payload"@) is None);
                assert(first_named(all, "payload"@) is None);
            }
        }
        match PayloadSource::of_pairs(pairs) {
            PayloadSource::Json(text) => match Payload::from_json(text.as_str()) {
                Ok(payload) => Ok(payload),
                Err(_) => Err(PayloadError::InvalidJson),
            },
            PayloadSource::Body(pairs) => Payload::from_unnamed(
                Payload::from_json_bytes(body),
                &pairs,
            ),
        }
    }

    /// The string that the member `key` holds.
    pub fn text(&self, key: &str) -> (text: Option<String>)
        ensures
            match text {
                Some(text) => text_field(self@, key@) == Some(text@),
                None => text_field(self@, key@) is None,
            },
    {
        match member_str(&self.json, key) {
            Some(text) => Some(text.to_owned()),
            None => None,
        }
    }

    /// The unsigned integer that the member `key` holds.
    pub fn number(&self, key: &str) -> (number: Option<u64>)
        ensures
            number == number_field(self@, key@),
    {
        member_u64(&self.json, key)
    }
}

} // verus!

//! What of a request's form and JSON becomes the payload.
use vstd::prelude::*;

use crate::adapter::{body_outcome, command_of};
use crate::decimal::{all_digits, digits_value, is_digit, parsed_u64, unsigned_part};
use crate::form::{form_pairs, pairs_view};
use crate::json::{json_bytes_fields, json_text_fields, Field, FieldValue, Fields};
use crate::laws::messages::{carries_token, law_text_decides_content};
use crate::laws::{
    law_form_fields_are_members, law_last_form_field_counts, law_payload_field_decides,
};
use crate::payload::{
    body_fields, form_members, member_fields, members_view, payload_view, Payload, PayloadError,
};
use crate::types::{ContentView, Timestamp};

verus! {

/// The fields of a form, as pairs of a name and a value.
pub type Pairs = Seq<(Seq<char>, Seq<char>)>;

/// Whether a pair is the last one of its name.
pub open spec fn is_last(pairs: Pairs, at: int) -> bool {
    0 <= at < pairs.len() && forall|i: int|
        at < i < pairs.len() ==> (#[trigger] pairs[i]).0 != pairs[at].0
}

/// Whether no pair has this name.
pub open spec fn is_absent(pairs: Pairs, name: Seq<char>) -> bool {
    forall|i: int| 0 <= i < pairs.len() ==> (#[trigger] pairs[i]).0 != name
}

/// Whether a body is a form whose fields are the payload: it has fields, none of
/// them named `payload`, and is no JSON.
pub open spec fn is_flat_form(body: Seq<u8>) -> bool {
    &&& form_pairs(body).len() > 0
    &&& is_absent(form_pairs(body), "payload"@)
    &&& json_bytes_fields(body) is None
}

/// Of members with the same name the last one is stored, unchanged.
pub proof fn law_last_member_is_stored(members: Seq<(Seq<char>, Field)>, at: int)
    requires
        0 <= at < members.len(),
        forall|i: int| at < i < members.len() ==> (#[trigger] members[i]).0 != members[at].0,
    ensures
        member_fields(members).contains_key(members[at].0),
        member_fields(members)[members[at].0] == members[at].1,
    decreases members.len(),
{
    let front = members.drop_last();
    if at < front.len() {
        assert(members[members.len() - 1].0 != members[at].0);
        assert forall|i: int| at < i < front.len() implies (#[trigger] front[i]).0
            != members[at].0 by {
            assert(members[i].0 != members[at].0);
        }
        law_last_member_is_stored(front, at);
    }
}

/// No other members are stored than those in the list.
pub proof fn law_only_members_are_stored(members: Seq<(Seq<char>, Field)>, name: Seq<char>)
    requires
        forall|i: int| 0 <= i < members.len() ==> (#[trigger] members[i]).0 != name,
    ensures
        !member_fields(members).contains_key(name),
    decreases members.len(),
{
    if members.len() > 0 {
        let front = members.drop_last();
        assert(members[members.len() - 1].0 != name);
        assert forall|i: int| 0 <= i < front.len() implies (#[trigger] front[i]).0 != name by {
            assert(members[i].0 != name);
        }
        law_only_members_are_stored(front, name);
    }
}

/// A form field that does not stand for a number is stored unchanged, as a
/// string, and one that does as that number. Of fields with the same name the
/// last one is stored.
pub proof fn law_form_field_is_stored(pairs: Pairs, at: int)
    requires
        is_last(pairs, at),
    ensures
        member_fields(form_members(pairs)).contains_key(pairs[at].0),
        parsed_u64(pairs[at].1) is None ==> member_fields(form_members(pairs))[pairs[at].0]
            == Field::Text(pairs[at].1),
        parsed_u64(pairs[at].1) matches Some(number) ==> member_fields(
            form_members(pairs),
        )[pairs[at].0] == Field::Number(number),
{
    law_last_form_field_counts(pairs, at);
}

/// A form stores no member that it has no field for.
pub proof fn law_form_stores_nothing_else(pairs: Pairs, name: Seq<char>)
    requires
        is_absent(pairs, name),
    ensures
        !member_fields(form_members(pairs)).contains_key(name),
    decreases pairs.len(),
{
    if pairs.len() > 0 {
        let front = pairs.drop_last();
        assert(form_members(pairs).drop_last() == form_members(front));
        assert forall|i: int| 0 <= i < front.len() implies (#[trigger] front[i]).0 != name by {
            assert(pairs[i].0 != name);
        }
        law_form_stores_nothing_else(front, name);
        assert(pairs[pairs.len() - 1].0 != name);
    }
}

/// The fields of a flat form are the payload's members.
pub proof fn law_flat_form_member(body: Seq<u8>, at: int)
    requires
        is_flat_form(body),
        is_last(form_pairs(body), at),
    ensures
        body_fields(body) matches Ok(fields) && {
            let (name, value) = form_pairs(body)[at];
            &&& fields.contains_key(name)
            &&& parsed_u64(value) is None ==> fields[name] == Field::Text(value)
            &&& parsed_u64(value) matches Some(number) ==> fields[name] == Field::Number(number)
        },
{
    law_form_fields_are_members(body);
    law_form_field_is_stored(form_pairs(body), at);
}

/// A flat form has no other members than its fields.
pub proof fn law_flat_form_only_members(body: Seq<u8>, name: Seq<char>)
    requires
        is_flat_form(body),
        is_absent(form_pairs(body), name),
    ensures
        body_fields(body) matches Ok(fields) && !fields.contains_key(name),
{
    law_form_fields_are_members(body);
    law_form_stores_nothing_else(form_pairs(body), name);
}

/// A flat form with the channel's token and a text becomes a message: the
/// command that the text gives, where it begins with a slash, and otherwise the
/// whole text after the name of who wrote it.
pub proof fn law_flat_form_message(
    body: Seq<u8>,
    token: Seq<char>,
    received: Timestamp,
    token_at: int,
    text_at: int,
    name_at: int,
)
    requires
        is_flat_form(body),
        is_last(form_pairs(body), token_at),
        form_pairs(body)[token_at] == ("token"@, token),
        parsed_u64(token) is None,
        is_last(form_pairs(body), text_at),
        form_pairs(body)[text_at].0 == "text"@,
        parsed_u64(form_pairs(body)[text_at].1) is None,
        form_pairs(body)[text_at].1.len() > 0,
        is_last(form_pairs(body), name_at),
        form_pairs(body)[name_at].0 == "username"@,
        parsed_u64(form_pairs(body)[name_at].1) is None,
    ensures
        body_outcome(body, token, received).message matches Some(message) && {
            let text = form_pairs(body)[text_at].1;
            let username = form_pairs(body)[name_at].1;
            &&& message.sender.display_name == username
            &&& text[0] == '/' ==> message.content == command_of(text) && message.content is Command
            &&& text[0] != '/' ==> message.content == ContentView::Text(
                seq!['['] + username + seq![']', ':', ' '] + text,
            )
        },
{
    law_flat_form_member(body, token_at);
    law_flat_form_member(body, text_at);
    law_flat_form_member(body, name_at);
    let fields = body_fields(body)->Ok_0;
    assert(carries_token(fields, token));
    law_text_decides_content(fields, token, received, form_pairs(body)[text_at].1);
}

/// Where a form has fields named `payload`, the first of them holds the payload
/// as JSON, and the request is bad if it does not.
pub proof fn law_payload_field_is_read(body: Seq<u8>, at: int)
    requires
        0 <= at < form_pairs(body).len(),
        form_pairs(body)[at].0 == "payload"@,
        forall|i: int| 0 <= i < at ==> (#[trigger] form_pairs(body)[i]).0 != "payload"@,
    ensures
        json_text_fields(form_pairs(body)[at].1) matches Some(fields) ==> body_fields(body) == Ok::<
            Fields,
            PayloadError,
        >(fields),
        json_text_fields(form_pairs(body)[at].1) is None ==> body_fields(body) == Err::<
            Fields,
            PayloadError,
        >(PayloadError::InvalidJson),
{
    law_payload_field_decides(form_pairs(body), at);
}

/// A request with neither form fields nor JSON has no payload.
pub proof fn law_payload_is_missing(body: Seq<u8>)
    requires
        form_pairs(body).len() == 0,
        json_bytes_fields(body) is None,
    ensures
        body_fields(body) == Err::<Fields, PayloadError>(PayloadError::Missing),
{
}

/// One digit stands for its value, and a digit after a number for ten times the
/// number and that value, as long as this fits in 64 bits.
pub proof fn law_number_by_digit(front: Seq<char>, digit: char)
    requires
        48 <= digit as int <= 57,
    ensures
        parsed_u64(seq![digit]) == Some((digit as int - 48) as u64),
        parsed_u64(front) matches Some(number) ==> parsed_u64(front.push(digit)) == (if number * 10
            + (digit as int - 48) <= 0xffff_ffff_ffff_ffff {
            Some((number * 10 + (digit as int - 48)) as u64)
        } else {
            None
        }),
{
    let one = seq![digit];
    assert(one.drop_last() == Seq::<char>::empty());
    assert(digits_value(Seq::<char>::empty()) == 0);
    assert(digits_value(one) == digit as int - 48);
    assert(is_digit(digit));
    assert(all_digits(one));
    if parsed_u64(front) is Some {
        let digits = unsigned_part(front);
        let longer = front.push(digit);
        assert(is_digit(digits[0]));
        assert(unsigned_part(longer) == digits.push(digit));
        assert(digits.push(digit).drop_last() == digits);
        assert forall|i: int| 0 <= i < digits.push(digit).len() implies #[trigger] is_digit(
            digits.push(digit)[i],
        ) by {
            if i < digits.len() {
                assert(is_digit(digits[i]));
            }
        }
    }
}

/// One plus sign before a digit makes no difference.
pub proof fn law_number_after_plus(digits: Seq<char>)
    requires
        digits.len() > 0,
        digits[0] != '+',
    ensures
        parsed_u64(seq!['+'] + digits) == parsed_u64(digits),
{
    assert((seq!['+'] + digits).skip(1) == digits);
}

/// A text with a character other than a digit stands for no number, but for a
/// plus sign that it begins with. Nor does an empty text, or a plus sign alone.
pub proof fn law_no_number(text: Seq<char>, at: int)
    requires
        text.len() == 0 || text == seq!['+'] || (0 <= at < text.len() && !(48 <= text[at] as int
            <= 57) && (at > 0 || text[at] != '+')),
    ensures
        parsed_u64(text) is None,
{
    let digits = unsigned_part(text);
    if all_digits(digits) {
        if text == seq!['+'] {
            assert(digits[0] == '+');
            assert(is_digit(digits[0]));
        } else if text.len() > 1 && text[0] == '+' {
            assert(is_digit(digits[at - 1]));
        } else {
            assert(is_digit(digits[at]));
        }
    }
}

/// Digits after digits that stand for no number any more stand for none either.
pub proof fn law_number_stays_too_large(front: Seq<char>, digit: char)
    requires
        front.len() > 0,
        parsed_u64(front) is None,
        front != seq!['+'],
        48 <= digit as int <= 57,
    ensures
        parsed_u64(front.push(digit)) is None,
{
    let longer = front.push(digit);
    let digits = unsigned_part(longer);
    assert(unsigned_part(front) == digits.drop_last()) by {
        if front.len() == 1 {
            assert(front == seq![front[0]]);
            assert(front[0] != '+');
        }
    }
    if all_digits(digits) {
        let shorter = digits.drop_last();
        assert forall|i: int| 0 <= i < shorter.len() implies #[trigger] is_digit(shorter[i]) by {
            assert(is_digit(digits[i]));
        }
        assert(all_digits(shorter));
        assert(digits_value(shorter) > 0xffff_ffff_ffff_ffff);
    }
}

/// A list of members reads as what it holds.
pub proof fn law_members_as_held(members: Seq<(String, FieldValue)>, at: int)
    requires
        0 <= at < members.len(),
    ensures
        members_view(members).len() == members.len(),
        members_view(members)[at].0 == members[at].0@,
        match members[at].1 {
            FieldValue::Text(text) => members_view(members)[at].1 == Field::Text(text@),
            FieldValue::Number(number) => members_view(members)[at].1 == Field::Number(number),
        },
{
}

/// A list of form fields reads as what it holds.
pub proof fn law_pairs_as_held(pairs: Seq<(String, String)>, at: int)
    requires
        0 <= at < pairs.len(),
    ensures
        pairs_view(pairs).len() == pairs.len(),
        pairs_view(pairs)[at] == (pairs[at].0@, pairs[at].1@),
{
}

/// What reading a payload came to reads as what it is.
pub proof fn law_payload_as_held(payload: Result<Payload, PayloadError>)
    ensures
        match payload {
            Ok(payload_read) => payload_view(payload) == Ok::<Fields, PayloadError>(payload_read@),
            Err(error) => payload_view(payload) == Err::<Fields, PayloadError>(error),
        },
{
}

} // verus!

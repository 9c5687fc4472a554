//! Bodies in the `application/x-www-form-urlencoded` syntax.
//!
//! The syntax is the `url` crate's work, in its module `form_urlencoded`.
use vstd::prelude::*;
use vstd::utf8::encode_utf8;

use crate::text::joined;

verus! {

/// The fields of a form, as pairs of a name and a value.
pub open spec fn pairs_view(pairs: Seq<(String, String)>) -> Seq<(Seq<char>, Seq<char>)> {
    Seq::new(pairs.len(), |i: int| (pairs[i].0@, pairs[i].1@))
}

/// Whether a body holds nothing but ampersands, or nothing at all.
pub open spec fn only_ampersands(body: Seq<u8>) -> bool {
    forall|i: int| 0 <= i < body.len() ==> #[trigger] body[i] == '&' as u8
}

/// The pairs of a name and a value that `form_urlencoded` reads in a body.
pub uninterp spec fn form_pairs(body: Seq<u8>) -> Seq<(Seq<char>, Seq<char>)>;

/// Whether a body begins with a brace and holds no ampersand, as JSON objects
/// without ampersands do.
pub open spec fn opens_with_brace(body: Seq<u8>) -> bool {
    body.len() > 0 && body[0] == '{' as u8 && !body.contains('&' as u8)
}

/// Whether a byte stands for itself in a form.
pub open spec fn is_unreserved(byte: u8) -> bool {
    ||| 'a' as u8 <= byte <= 'z' as u8
    ||| 'A' as u8 <= byte <= 'Z' as u8
    ||| '0' as u8 <= byte <= '9' as u8
    ||| byte == '*' as u8
    ||| byte == '-' as u8
    ||| byte == '.' as u8
    ||| byte == '_' as u8
}

/// A hexadecimal digit, in upper case.
pub open spec fn upper_hex_digit(digit: int) -> char {
    if digit < 10 {
        ('0' as int + digit) as char
    } else {
        ('A' as int + digit - 10) as char
    }
}

/// How a form writes a byte.
pub open spec fn form_byte(byte: u8) -> Seq<char> {
    if is_unreserved(byte) {
        seq![byte as char]
    } else if byte == ' ' as u8 {
        seq!['+']
    } else {
        seq!['%', upper_hex_digit(byte as int / 16), upper_hex_digit(byte as int % 16)]
    }
}

/// How a form writes a text: byte by byte, in UTF-8.
pub open spec fn form_escaped(text: Seq<char>) -> Seq<char> {
    joined(Seq::new(encode_utf8(text).len(), |i: int| form_byte(encode_utf8(text)[i])))
}

/// The form with one pair.
pub open spec fn form_text(name: Seq<char>, value: Seq<char>) -> Seq<char> {
    form_escaped(name) + seq!['='] + form_escaped(value)
}

/// `url::form_urlencoded::parse` reads the pairs of a body, in order. What it
/// reads depends on the body alone. It splits at ampersands and takes every
/// part that is not empty for a pair, so that it reads no pair exactly where
/// there is nothing but ampersands, and one pair where there is something else
/// but no ampersand. A brace stands for itself, so that a body that begins with
/// one has a name that does.
#[verifier::external_body]
pub(crate) fn parse_form(body: &[u8]) -> (pairs: Vec<(String, String)>)
    ensures
        pairs_view(pairs@) == form_pairs(body@),
        pairs@.len() == 0 <==> only_ampersands(body@),
        opens_with_brace(body@) ==> pairs@.len() == 1 && pairs@[0].0@.len() > 0
            && pairs@[0].0@[0] == '{',
{
    url::form_urlencoded::parse(body)
        .map(|(name, value)| (name.into_owned(), value.into_owned()))
        .collect()
}

/// `url::form_urlencoded::Serializer`, with one call of `append_pair` and one
/// of `finish`. It writes the name, an equals sign and the value, with every
/// byte but letters, digits, `*`, `-`, `.` and `_` percent-encoded and spaces as
/// plus signs. `url::form_urlencoded::parse` reads that one pair back from it.
#[verifier::external_body]
pub(crate) fn write_form(name: &str, value: &str) -> (body: String)
    ensures
        body@ == form_text(name@, value@),
        form_pairs(encode_utf8(body@)) == seq![(name@, value@)],
{
    url::form_urlencoded::Serializer::new(String::new()).append_pair(name, value).finish()
}

} // verus!

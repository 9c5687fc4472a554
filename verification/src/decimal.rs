//! Unsigned integers as decimal text.
use vstd::prelude::*;

verus! {

/// The decimal digit of a number below ten.
pub open spec fn digit_char(digit: nat) -> char {
    ('0' as nat + digit) as char
}

/// Whether a character is one of `0` to `9`.
pub open spec fn is_digit(c: char) -> bool {
    '0' <= c <= '9'
}

/// A number written in decimal, without leading zeros.
pub open spec fn decimal(number: nat) -> Seq<char>
    decreases number,
{
    if number < 10 {
        seq![digit_char(number)]
    } else {
        decimal(number / 10).push(digit_char(number % 10))
    }
}

/// The number that a sequence of decimal digits writes.
pub open spec fn digits_value(digits: Seq<char>) -> nat
    decreases digits.len(),
{
    if digits.len() == 0 {
        0
    } else {
        (digits_value(digits.drop_last()) * 10 + (digits.last() as int - '0' as int)) as nat
    }
}

/// Whether a text consists of decimal digits, one at least.
pub open spec fn all_digits(text: Seq<char>) -> bool {
    text.len() > 0 && forall|i: int| 0 <= i < text.len() ==> #[trigger] is_digit(text[i])
}

/// A text without the plus sign that may stand before a number.
pub open spec fn unsigned_part(text: Seq<char>) -> Seq<char> {
    if text.len() > 1 && text[0] == '+' {
        text.skip(1)
    } else {
        text
    }
}

/// The number that a text stands for: decimal digits, after a plus sign or
/// none, with a value that fits in 64 bits.
pub open spec fn parsed_u64(text: Seq<char>) -> Option<u64> {
    let digits = unsigned_part(text);
    if all_digits(digits) && digits_value(digits) <= u64::MAX {
        Some(digits_value(digits) as u64)
    } else {
        None
    }
}

/// Writes a number in decimal.
pub fn decimal_text(number: u64) -> (text: String)
    ensures
        text@ == decimal(number as nat),
    decreases number,
{
    let digit: u8 = (number % 10) as u8;
    let mut text = if number < 10 {
        String::new()
    } else {
        decimal_text(number / 10)
    };
    text.push((48u8 + digit) as char);
    text
}

/// The digits of a longer text stand for no smaller number.
proof fn lemma_digits_value_grows(digits: Seq<char>, count: int)
    requires
        0 <= count <= digits.len(),
        forall|i: int| 0 <= i < digits.len() ==> #[trigger] is_digit(digits[i]),
    ensures
        digits_value(digits.take(count)) <= digits_value(digits),
    decreases digits.len(),
{
    if count < digits.len() {
        lemma_digits_value_grows(digits.drop_last(), count);
        assert(digits.drop_last().take(count) == digits.take(count));
        assert(is_digit(digits[digits.len() - 1]));
    } else {
        assert(digits.take(count) == digits);
    }
}

/// Reads a number, where the text stands for one.
pub fn parse_u64(chars: &Vec<char>) -> (number: Option<u64>)
    ensures
        number == parsed_u64(chars@),
{
    let start: usize = if chars.len() > 1 && chars[0] == '+' {
        1
    } else {
        0
    };
    let ghost digits = unsigned_part(chars@);
    assert(digits == chars@.skip(start as int));
    if chars.len() == 0 {
        return None;
    }
    let mut number: u64 = 0;
    let mut next: usize = start;
    assert(digits.take(0) == Seq::<char>::empty());
    while next < chars.len()
        invariant
            start <= next <= chars.len(),
            digits == chars@.skip(start as int),
            digits == unsigned_part(chars@),
            number == digits_value(digits.take(next - start)),
            forall|i: int| 0 <= i < next - start ==> #[trigger] is_digit(digits[i]),
        decreases chars.len() - next,
    {
        let c = chars[next];
        let ghost count = next - start;
        assert(c == digits[count]);
        if !(c >= '0' && c <= '9') {
            assert(!is_digit(digits[count]));
            return None;
        }
        let digit: u64 = (c as u32 - 48) as u64;
        assert(digits.take(count + 1).drop_last() == digits.take(count));
        assert(digits_value(digits.take(count + 1)) == number * 10 + digit);
        if number > (u64::MAX - digit) / 10 {
            proof {
                if all_digits(digits) {
                    lemma_digits_value_grows(digits, count + 1);
                }
            }
            return None;
        }
        number = number * 10 + digit;
        next = next + 1;
    }
    assert(digits.take(next - start) == digits);
    Some(number)
}

/// A number in decimal consists of digits that stand for that number.
proof fn lemma_decimal_digits(number: nat)
    ensures
        all_digits(decimal(number)),
        digits_value(decimal(number)) == number,
    decreases number,
{
    if number < 10 {
        assert(decimal(number).drop_last() == Seq::<char>::empty());
        assert(digits_value(Seq::<char>::empty()) == 0);
    } else {
        lemma_decimal_digits(number / 10);
        let front = decimal(number / 10);
        assert(decimal(number).drop_last() == front);
        assert forall|i: int| 0 <= i < decimal(number).len() implies #[trigger] is_digit(
            decimal(number)[i],
        ) by {
            if i < front.len() {
                assert(is_digit(front[i]));
            }
        }
    }
}

/// A number that is written in decimal reads back as itself.
pub proof fn law_decimal_reads_back(number: u64)
    ensures
        parsed_u64(decimal(number as nat)) == Some(number),
{
    lemma_decimal_digits(number as nat);
    let text = decimal(number as nat);
    assert(is_digit(text[0]));
}

} // verus!

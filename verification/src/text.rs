//! Texts as sequences of characters: cutting them up and putting them together.
use vstd::prelude::*;

verus! {

/// `String::push` appends one character at the end of the text.
pub assume_specification[ String::push ](text: &mut String, c: char)
    ensures
        final(text)@ == old(text)@.push(c),
;

/// The texts of a list of strings.
pub open spec fn texts(strings: Seq<String>) -> Seq<Seq<char>> {
    Seq::new(strings.len(), |i: int| strings[i]@)
}

/// All pieces of a text, one after the other.
pub open spec fn joined(pieces: Seq<Seq<char>>) -> Seq<char>
    decreases pieces.len(),
{
    if pieces.len() == 0 {
        Seq::empty()
    } else {
        pieces[0] + joined(pieces.skip(1))
    }
}

/// Whether a character separates words: the characters that Unicode gives the
/// property White_Space.
pub open spec fn is_whitespace(c: char) -> bool {
    ||| '\u{9}' <= c <= '\u{d}'
    ||| c == ' '
    ||| c == '\u{85}'
    ||| c == '\u{a0}'
    ||| c == '\u{1680}'
    ||| '\u{2000}' <= c <= '\u{200a}'
    ||| c == '\u{2028}'
    ||| c == '\u{2029}'
    ||| c == '\u{202f}'
    ||| c == '\u{205f}'
    ||| c == '\u{3000}'
}

/// Whether a text is one word: not empty, and without white space.
pub open spec fn is_word(text: Seq<char>) -> bool {
    text.len() > 0 && forall|i: int| 0 <= i < text.len() ==> !is_whitespace(#[trigger] text[i])
}

/// How many characters stand before the first white space.
pub open spec fn word_len(text: Seq<char>) -> nat
    decreases text.len(),
{
    if text.len() == 0 || is_whitespace(text[0]) {
        0
    } else {
        1 + word_len(text.skip(1))
    }
}

/// The words of a text: the longest runs of characters without white space, in
/// order.
pub open spec fn words(text: Seq<char>) -> Seq<Seq<char>>
    decreases text.len(),
{
    if text.len() == 0 {
        Seq::empty()
    } else if is_whitespace(text[0]) {
        words(text.skip(1))
    } else {
        let len = word_len(text) as int;
        proof {
            lemma_word_len(text);
        }
        seq![text.take(len)] + words(text.skip(len))
    }
}

/// A word ends at white space or with the text, and a text that begins with
/// another character begins with a word.
pub proof fn lemma_word_len(text: Seq<char>)
    ensures
        word_len(text) <= text.len(),
        forall|i: int| 0 <= i < word_len(text) ==> !#[trigger] is_whitespace(text[i]),
        word_len(text) < text.len() ==> is_whitespace(text[word_len(text) as int]),
        text.len() > 0 && !is_whitespace(text[0]) ==> word_len(text) > 0,
    decreases text.len(),
{
    if text.len() > 0 && !is_whitespace(text[0]) {
        let rest = text.skip(1);
        lemma_word_len(rest);
        assert forall|i: int| 0 <= i < word_len(text) implies !#[trigger] is_whitespace(text[i]) by {
            if i > 0 {
                assert(!is_whitespace(rest[i - 1]));
            }
        }
    }
}

/// The position of the first `c` in a text; its length where there is none.
pub open spec fn find_char(text: Seq<char>, c: char) -> nat
    decreases text.len(),
{
    if text.len() == 0 || text[0] == c {
        0
    } else {
        1 + find_char(text.skip(1), c)
    }
}

/// A text without the characters `c` that it begins with.
pub open spec fn trim_start(text: Seq<char>, c: char) -> Seq<char>
    decreases text.len(),
{
    if text.len() > 0 && text[0] == c {
        trim_start(text.skip(1), c)
    } else {
        text
    }
}

/// The characters of a text.
pub fn chars_of(text: &str) -> (chars: Vec<char>)
    ensures
        chars@ == text@,
{
    let mut chars: Vec<char> = Vec::new();
    for c in it: text.chars()
        invariant
            chars@ == it.seq().take(it.index() as int),
            it.seq() == text@,
    {
        chars.push(c);
    }
    chars
}

/// The text of the characters from `start` up to `end`.
pub fn text_between(chars: &Vec<char>, start: usize, end: usize) -> (text: String)
    requires
        start <= end <= chars@.len(),
    ensures
        text@ == chars@.subrange(start as int, end as int),
{
    let mut text = String::new();
    let mut next: usize = start;
    while next < end
        invariant
            start <= next <= end <= chars@.len(),
            text@ == chars@.subrange(start as int, next as int),
        decreases end - next,
    {
        text.push(chars[next]);
        next = next + 1;
    }
    text
}

/// Whether a character separates words.
pub fn separates_words(c: char) -> (separates: bool)
    ensures
        separates == is_whitespace(c),
{
    ('\u{9}' <= c && c <= '\u{d}') || c == ' ' || c == '\u{85}' || c == '\u{a0}' || c == '\u{1680}'
        || ('\u{2000}' <= c && c <= '\u{200a}') || c == '\u{2028}' || c == '\u{2029}' || c
        == '\u{202f}' || c == '\u{205f}' || c == '\u{3000}'
}

/// The position of the first `c` from `start` on; the end where there is none.
pub fn position_from(chars: &Vec<char>, start: usize, c: char) -> (position: usize)
    requires
        start <= chars@.len(),
    ensures
        position == start + find_char(chars@.skip(start as int), c),
        start <= position <= chars@.len(),
        position < chars@.len() ==> chars@[position as int] == c,
{
    let mut position: usize = start;
    while position < chars.len() && chars[position] != c
        invariant
            start <= position <= chars@.len(),
            start + find_char(chars@.skip(start as int), c) == position + find_char(
                chars@.skip(position as int),
                c,
            ),
        decreases chars.len() - position,
    {
        assert(chars@.skip(position as int).skip(1) == chars@.skip(position + 1));
        position = position + 1;
    }
    position
}

/// The position of the first character between `start` and `end` that is not
/// `c`; `end` where there is none.
pub fn skip_from(chars: &Vec<char>, start: usize, end: usize, c: char) -> (position: usize)
    requires
        start <= end <= chars@.len(),
    ensures
        start <= position <= end,
        chars@.subrange(position as int, end as int) == trim_start(
            chars@.subrange(start as int, end as int),
            c,
        ),
{
    let mut position: usize = start;
    while position < end && chars[position] == c
        invariant
            start <= position <= end <= chars@.len(),
            trim_start(chars@.subrange(position as int, end as int), c) == trim_start(
                chars@.subrange(start as int, end as int),
                c,
            ),
        decreases end - position,
    {
        assert(chars@.subrange(position as int, end as int).skip(1) == chars@.subrange(
            position + 1,
            end as int,
        ));
        position = position + 1;
    }
    position
}

/// Splits the characters from `start` on into words.
pub fn words_from(chars: &Vec<char>, start: usize) -> (list: Vec<String>)
    requires
        start <= chars@.len(),
    ensures
        texts(list@) == words(chars@.skip(start as int)),
{
    let mut list: Vec<String> = Vec::new();
    let mut next: usize = start;
    assert(texts(list@) == Seq::<Seq<char>>::empty());
    while next < chars.len()
        invariant
            start <= next <= chars@.len(),
            texts(list@) + words(chars@.skip(next as int)) == words(chars@.skip(start as int)),
        decreases chars.len() - next,
    {
        let ghost rest = chars@.skip(next as int);
        if separates_words(chars[next]) {
            assert(rest.skip(1) == chars@.skip(next + 1));
            next = next + 1;
        } else {
            let mut end: usize = next;
            assert(chars@.skip(next as int) == rest);
            while end < chars.len() && !separates_words(chars[end])
                invariant
                    next <= end <= chars@.len(),
                    word_len(rest) == end - next + word_len(chars@.skip(end as int)),
                decreases chars.len() - end,
            {
                assert(chars@.skip(end as int).skip(1) == chars@.skip(end + 1));
                end = end + 1;
            }
            let ghost len = word_len(rest) as int;
            proof {
                lemma_word_len(rest);
                assert(len == end - next);
                assert(rest.take(len) == chars@.subrange(next as int, end as int));
                assert(rest.skip(len) == chars@.skip(end as int));
            }
            let ghost before = texts(list@);
            list.push(text_between(chars, next, end));
            assert(texts(list@) == before.push(rest.take(len)));
            assert(before + (seq![rest.take(len)] + words(rest.skip(len))) == before.push(
                rest.take(len),
            ) + words(rest.skip(len)));
            next = end;
        }
    }
    assert(words(chars@.skip(next as int)) == Seq::<Seq<char>>::empty());
    list
}

} // verus!

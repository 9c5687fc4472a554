//! How a command splits into its name and its arguments.
use vstd::prelude::*;

use crate::adapter::command_of;
use crate::laws::{lemma_filter_all, lemma_filter_none, lemma_filter_split};
use crate::text::{find_char, is_whitespace, lemma_word_len, trim_start, word_len, words};
use crate::types::ContentView;

verus! {

/// Whether a text has no space in it.
pub open spec fn has_no_space(text: Seq<char>) -> bool {
    forall|i: int| 0 <= i < text.len() ==> #[trigger] text[i] != ' '
}

/// Whether a text is white space all through.
pub open spec fn is_blank(text: Seq<char>) -> bool {
    forall|i: int| 0 <= i < text.len() ==> is_whitespace(#[trigger] text[i])
}

/// Whether a text has no white space in it.
pub open spec fn is_solid(text: Seq<char>) -> bool {
    forall|i: int| 0 <= i < text.len() ==> !is_whitespace(#[trigger] text[i])
}

/// White space are the characters with these 25 code points, and no others.
pub proof fn law_white_space(c: char)
    ensures
        is_whitespace(c) <==> {
            let code = c as int;
            ||| 9 <= code <= 13
            ||| code == 32
            ||| code == 133
            ||| code == 160
            ||| code == 5760
            ||| 8192 <= code <= 8202
            ||| code == 8232
            ||| code == 8233
            ||| code == 8239
            ||| code == 8287
            ||| code == 12288
        },
{
}

/// The text before the first space is the slashes in front and the command's
/// name, whatever comes after that space.
pub proof fn law_command_name(slashes: nat, name: Seq<char>, rest: Seq<char>)
    requires
        has_no_space(name),
        name.len() > 0 ==> name[0] != '/',
        rest.len() > 0 ==> rest[0] == ' ',
    ensures
        command_of(Seq::new(slashes, |i: int| '/') + name + rest) matches ContentView::Command {
            name: read,
            ..
        } && read == name,
{
    let front = Seq::new(slashes, |i: int| '/');
    let head = front + name;
    assert forall|i: int| 0 <= i < head.len() implies #[trigger] head[i] != ' ' by {
        if i >= slashes {
            assert(head[i] == name[i - slashes]);
        }
    }
    law_first_position(head, rest, ' ');
    law_trimmed_in_front(slashes, name, '/');
    assert((head + rest).take(head.len() as int) == head);
}

/// A text without a space is a command without arguments.
pub proof fn law_command_alone(head: Seq<char>)
    requires
        has_no_space(head),
    ensures
        command_of(head) matches ContentView::Command { args, .. } && args.len() == 0,
{
    law_first_position(head, Seq::empty(), ' ');
    assert(head + Seq::<char>::empty() == head);
}

/// A command followed by white space alone has no arguments.
pub proof fn law_command_before_blank(head: Seq<char>, blank: Seq<char>)
    requires
        has_no_space(head),
        is_blank(blank),
    ensures
        command_of(head + seq![' '] + blank) matches ContentView::Command { args, .. }
            && args.len() == 0,
{
    lemma_arguments(head, blank);
    law_blank_has_no_words(blank);
}

/// Each run of characters between white space is one argument: the arguments of
/// a command are those that the text before the run gives, then the run, then
/// those that the text after it gives.
pub proof fn law_command_arguments(
    head: Seq<char>,
    before: Seq<char>,
    run: Seq<char>,
    after: Seq<char>,
)
    requires
        has_no_space(head),
        before.len() > 0 ==> is_whitespace(before.last()),
        run.len() > 0,
        is_solid(run),
        after.len() > 0 ==> is_whitespace(after[0]),
    ensures
        command_of(head + seq![' '] + before) matches ContentView::Command { args: first, .. }
            && command_of(head + seq![' '] + after) matches ContentView::Command { args: last, .. }
            && command_of(
            head + seq![' '] + (before + run + after),
        ) matches ContentView::Command { args, .. } && args == first + seq![run] + last,
{
    lemma_arguments(head, before);
    lemma_arguments(head, after);
    lemma_arguments(head, before + run + after);
    law_words_on_both_sides(before, run + after);
    law_words_on_both_sides(run, after);
    law_run_is_one_word(run);
    assert(before + run + after == before + (run + after));
    assert(words(before) + (seq![run] + words(after)) == words(before) + seq![run] + words(after));
}

/// A command's arguments are, put together, the text after the first space
/// without its white space, and none of them is empty or has white space in it.
pub proof fn law_command_keeps_characters(head: Seq<char>, rest: Seq<char>)
    requires
        has_no_space(head),
    ensures
        command_of(head + seq![' '] + rest) matches ContentView::Command { args, .. } && {
            &&& args.flatten() == rest.filter(|c: char| !is_whitespace(c))
            &&& forall|k: int|
                0 <= k < args.len() ==> (#[trigger] args[k]).len() > 0 && is_solid(args[k])
        },
{
    lemma_arguments(head, rest);
    lemma_words_flatten(rest);
}

/// The first `c` in a text stands where the characters before it end; where
/// there is none, that is the end of the text.
pub proof fn law_first_position(head: Seq<char>, rest: Seq<char>, c: char)
    requires
        forall|i: int| 0 <= i < head.len() ==> #[trigger] head[i] != c,
        rest.len() > 0 ==> rest[0] == c,
    ensures
        find_char(head + rest, c) == head.len(),
    decreases head.len(),
{
    if head.len() > 0 {
        assert(head[0] != c);
        assert forall|i: int| 0 <= i < head.skip(1).len() implies #[trigger] head.skip(1)[i]
            != c by {
            assert(head[i + 1] != c);
        }
        law_first_position(head.skip(1), rest, c);
        assert((head + rest).skip(1) == head.skip(1) + rest);
    }
}

/// The arguments are the words after the first space.
proof fn lemma_arguments(head: Seq<char>, rest: Seq<char>)
    requires
        has_no_space(head),
    ensures
        command_of(head + seq![' '] + rest) matches ContentView::Command { args, .. } && args
            == words(rest),
{
    let text = head + seq![' '] + rest;
    assert(text == head + (seq![' '] + rest));
    law_first_position(head, seq![' '] + rest, ' ');
    assert(text.skip(head.len() as int + 1) == rest);
}

/// Trimming takes away every `c` in front, and nothing else.
pub proof fn law_trimmed_in_front(count: nat, rest: Seq<char>, c: char)
    requires
        rest.len() > 0 ==> rest[0] != c,
    ensures
        trim_start(Seq::new(count, |i: int| c) + rest, c) == rest,
    decreases count,
{
    let text = Seq::new(count, |i: int| c) + rest;
    if count == 0 {
        assert(text == rest);
    } else {
        law_trimmed_in_front((count - 1) as nat, rest, c);
        assert(text[0] == c);
        assert(text.skip(1) == Seq::new((count - 1) as nat, |i: int| c) + rest);
    }
}

/// The first word is as long as the run of other characters that a text begins
/// with.
proof fn lemma_first_run(run: Seq<char>, rest: Seq<char>)
    requires
        is_solid(run),
        rest.len() > 0 ==> is_whitespace(rest[0]),
    ensures
        word_len(run + rest) == run.len(),
    decreases run.len(),
{
    if run.len() > 0 {
        assert(!is_whitespace(run[0]));
        assert forall|i: int| 0 <= i < run.skip(1).len() implies !is_whitespace(
            #[trigger] run.skip(1)[i],
        ) by {
            assert(!is_whitespace(run[i + 1]));
        }
        lemma_first_run(run.skip(1), rest);
        assert((run + rest).skip(1) == run.skip(1) + rest);
    }
}

/// A run of characters other than white space is one word.
pub proof fn law_run_is_one_word(run: Seq<char>)
    requires
        run.len() > 0,
        is_solid(run),
    ensures
        words(run) == seq![run],
{
    lemma_first_run(run, Seq::empty());
    assert(run + Seq::<char>::empty() == run);
    assert(!is_whitespace(run[0]));
    assert(run.take(run.len() as int) == run);
    assert(words(run.skip(run.len() as int)) == Seq::<Seq<char>>::empty());
}

/// White space has no words.
pub proof fn law_blank_has_no_words(blank: Seq<char>)
    requires
        is_blank(blank),
    ensures
        words(blank) == Seq::<Seq<char>>::empty(),
    decreases blank.len(),
{
    if blank.len() > 0 {
        assert(is_whitespace(blank[0]));
        assert forall|i: int| 0 <= i < blank.skip(1).len() implies is_whitespace(
            #[trigger] blank.skip(1)[i],
        ) by {
            assert(is_whitespace(blank[i + 1]));
        }
        law_blank_has_no_words(blank.skip(1));
    }
}

/// Where white space stands at the seam, two texts have their words one after
/// the other.
pub proof fn law_words_on_both_sides(left: Seq<char>, right: Seq<char>)
    requires
        left.len() > 0 && right.len() > 0 ==> is_whitespace(left.last()) || is_whitespace(right[0]),
    ensures
        words(left + right) == words(left) + words(right),
    decreases left.len(),
{
    let both = left + right;
    if left.len() == 0 {
        assert(both == right);
    } else if is_whitespace(left[0]) {
        assert(both.skip(1) == left.skip(1) + right);
        law_words_on_both_sides(left.skip(1), right);
    } else {
        lemma_word_len(left);
        let len = word_len(left) as int;
        let run = left.take(len);
        let rest = left.skip(len);
        assert forall|i: int| 0 <= i < run.len() implies !is_whitespace(#[trigger] run[i]) by {
            assert(!is_whitespace(left[i]));
        }
        assert(both == run + (rest + right));
        if rest.len() == 0 {
            assert(!is_whitespace(left[len - 1]));
        }
        lemma_first_run(run, rest + right);
        assert(both.take(len) == run);
        assert(both.skip(len) == rest + right);
        law_words_on_both_sides(rest, right);
        assert(seq![run] + (words(rest) + words(right)) == seq![run] + words(rest) + words(right));
    }
}

/// The words of a text are, put together, the text without its white space.
proof fn lemma_words_flatten(text: Seq<char>)
    ensures
        words(text).flatten() == text.filter(|c: char| !is_whitespace(c)),
        forall|k: int|
            0 <= k < words(text).len() ==> (#[trigger] words(text)[k]).len() > 0 && is_solid(
                words(text)[k],
            ),
    decreases text.len(),
{
    let visible = |c: char| !is_whitespace(c);
    if text.len() == 0 {
        reveal(Seq::filter);
    } else if is_whitespace(text[0]) {
        lemma_words_flatten(text.skip(1));
        lemma_filter_split(text, 1, visible);
        lemma_filter_none(text.take(1), visible);
        assert(text.skip(1).filter(visible) == Seq::<char>::empty() + text.skip(1).filter(visible));
        assert(words(text) == words(text.skip(1)));
    } else {
        let len = word_len(text) as int;
        let run = text.take(len);
        let rest = words(text.skip(len));
        lemma_word_len(text);
        lemma_words_flatten(text.skip(len));
        lemma_filter_split(text, len, visible);
        assert forall|i: int| 0 <= i < run.len() implies !is_whitespace(#[trigger] run[i]) by {
            assert(!is_whitespace(text[i]));
        }
        lemma_filter_all(run, visible);
        assert(words(text) == seq![run] + rest);
        assert(words(text).drop_first() == rest);
        assert forall|k: int| 0 <= k < words(text).len() implies (#[trigger] words(text)[k]).len()
            > 0 && is_solid(words(text)[k]) by {
            if k > 0 {
                assert(words(text)[k] == rest[k - 1]);
            }
        }
    }
}

} // verus!

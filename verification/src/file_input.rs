//! Input that starts with a slash and yet names a file.
//!
//! A slash starts a command, but a file dropped onto the terminal also arrives
//! as text that starts with one.

use crate::state::ChatState;
use crate::text::contains_char;
#[allow(unused_imports)]
use crate::text::texts;
use vstd::prelude::*;

verus! {

/// The words into which `shlex::split` divides a text, `None` where the text
/// ends inside a quotation or right after a backslash.
pub uninterp spec fn shell_words(text: Seq<char>) -> Option<Seq<Seq<char>>>;

/// The characters of each of the words.
pub open spec fn words_view(words: Option<Vec<String>>) -> Option<Seq<Seq<char>>> {
    match words {
        Some(list) => Some(texts(list@)),
        None => None,
    }
}

/// The characters that part two words of a shell command.
pub open spec fn is_blank(c: char) -> bool {
    c == ' ' || c == '\t' || c == '\n'
}

/// The characters that stand for themselves in a shell command, wherever they
/// occur: neither a blank, nor a quote, nor a backslash, nor the start of a
/// comment.
pub open spec fn is_plain(c: char) -> bool {
    !is_blank(c) && c != '"' && c != '\'' && c != '\\' && c != '#'
}

/// `text` is made of plain characters and blanks only.
pub open spec fn is_plain_text(text: Seq<char>) -> bool {
    forall|i: int| 0 <= i < text.len() ==> is_plain(#[trigger] text[i]) || is_blank(text[i])
}

/// The first run of characters of `text` that are not blank is `start..end`.
pub open spec fn is_first_run(text: Seq<char>, start: int, end: int) -> bool {
    &&& 0 <= start < end <= text.len()
    &&& forall|i: int| 0 <= i < start ==> is_blank(#[trigger] text[i])
    &&& forall|i: int| start <= i < end ==> !is_blank(#[trigger] text[i])
    &&& end < text.len() ==> is_blank(text[end])
}

/// The first run of `text` is `start..end`, and it is plain.
pub open spec fn is_plain_run(text: Seq<char>, start: int, end: int) -> bool {
    &&& is_first_run(text, start, end)
    &&& forall|i: int| start <= i < end ==> is_plain(#[trigger] text[i])
}

/// A word with a path separator or a dot in it looks like a path.
pub open spec fn looks_like_path(word: Seq<char>, separator: char) -> bool {
    word.contains(separator) || word.contains('/') || word.contains('\\') || word.contains('.')
}

/// Whether the first of the words looks like a path.
pub open spec fn first_word_is_path(words: Option<Seq<Seq<char>>>, separator: char) -> bool {
    words is Some && words->0.len() > 0 && looks_like_path(words->0[0], separator)
}

/// The text that is handled as input in the given state, if it is.
pub open spec fn handled_input(state: Option<ChatState>) -> Option<Seq<char>> {
    match state {
        Some(ChatState::HandleInput { input }) => Some(input@),
        _ => None,
    }
}

/// `shlex::split`: the words of `text` by the rules of a POSIX shell.
///
/// Claimed of it: the result depends on the text alone. A text whose first run of
/// characters that are not blank is plain has that run as its first word, whatever
/// follows, and is an error exactly where what follows the blank after the run is one.
/// A text of plain characters and blanks is never an error, and a blank text has no
/// word. What quotes, backslashes and comments do is left to the name.
#[verifier::external_body]
fn split_words(text: &str) -> (words: Option<Vec<String>>)
    ensures
        words_view(words) == shell_words(text@),
        forall|start: int, end: int| #[trigger]
            is_plain_run(text@, start, end) ==> {
                &&& words is Some <==> (end == text@.len() || shell_words(text@.skip(end + 1)) is Some)
                &&& words is Some ==> words->0.len() > 0 && words->0[0]@ == text@.subrange(
                    start,
                    end,
                )
            },
        is_plain_text(text@) ==> words is Some,
        (forall|i: int| 0 <= i < text@.len() ==> is_blank(#[trigger] text@[i])) ==> words is Some
            && words->0.len() == 0,
{
    shlex::split(text)
}

/// `std::path::MAIN_SEPARATOR`: the separator of path components on the machine
/// at hand. Claimed of it: it is a slash (Unix) or a backslash (Windows).
#[verifier::external_body]
fn main_separator() -> (separator: char)
    ensures
        separator == '/' || separator == '\\',
{
    std::path::MAIN_SEPARATOR
}

/// Whether a word looks like a path.
pub fn is_path_like(word: &str, separator: char) -> (result: bool)
    ensures
        result == looks_like_path(word@, separator),
{
    contains_char(word, separator) || contains_char(word, '/') || contains_char(word, '\\')
        || contains_char(word, '.')
}

/// The state in which input goes on whose text after the slash is `after_slash`,
/// with the given words: it is handled as ordinary input where the first word
/// looks like a path.
pub fn file_reference(after_slash: &str, words: Option<Vec<String>>, separator: char) -> (state:
    Option<ChatState>)
    ensures
        state is Some <==> first_word_is_path(words_view(words), separator),
        state is Some ==> handled_input(state) == Some(after_slash@),
{
    let list: Vec<String> = match words {
        Some(list) => list,
        None => Vec::new(),
    };
    if list.len() > 0 && is_path_like(list[0].as_str(), separator) {
        return Some(ChatState::HandleInput { input: after_slash.to_string() });
    }
    None
}

/// Which of the two usual separators a machine has makes no difference to what
/// looks like a path.
pub proof fn law_either_separator_gives_the_same_answer(word: Seq<char>)
    ensures
        looks_like_path(word, '/') == looks_like_path(word, '\\'),
{
}

/// `state` is what becomes of `input`.
///
/// Input is a reference where it starts with a slash and the first word after the slash
/// looks like a path; the text after the slash is handled then. Where that text begins
/// with a plain run, the run decides, provided that the rest is no error. In plain text
/// it decides alone.
pub open spec fn is_verdict(input: Seq<char>, state: Option<ChatState>) -> bool {
    let after_slash = input.skip(1);
    let has_slash = input.len() > 0 && input[0] == '/';
    &&& state is Some <==> has_slash && first_word_is_path(shell_words(after_slash), '/')
    &&& state is Some ==> handled_input(state) == Some(after_slash)
    &&& forall|start: int, end: int| #[trigger]
        is_plain_run(after_slash, start, end) && has_slash ==> (state is Some <==> (
        looks_like_path(after_slash.subrange(start, end), '/') && (end == after_slash.len()
            || shell_words(after_slash.skip(end + 1)) is Some)))
    &&& forall|start: int, end: int| #[trigger]
        is_first_run(after_slash, start, end) && is_plain_text(after_slash) && has_slash ==> (
        state is Some <==> looks_like_path(after_slash.subrange(start, end), '/'))
    &&& (forall|i: int| 1 <= i < input.len() ==> is_blank(#[trigger] input[i])) ==> state is None
}

/// Later words never change whether input names a file: after a plain first word and a
/// blank, any text that is no error leaves the answer as it is without that text, and a
/// text that is an error makes it no.
pub proof fn law_later_words_do_not_matter(
    word: Seq<char>,
    blank: char,
    tail: Seq<char>,
    alone: Option<ChatState>,
    followed: Option<ChatState>,
)
    requires
        word.len() > 0,
        forall|i: int| 0 <= i < word.len() ==> is_plain(#[trigger] word[i]),
        is_blank(blank),
        is_verdict(seq!['/'] + word, alone),
        is_verdict(seq!['/'] + word + seq![blank] + tail, followed),
    ensures
        alone is Some <==> looks_like_path(word, '/'),
        shell_words(tail) is Some ==> (followed is Some <==> alone is Some),
        shell_words(tail) is None ==> followed is None,
{
    let len = word.len() as int;
    let short = (seq!['/'] + word).skip(1);
    assert(short == word);
    assert(is_plain_run(short, 0, len));
    assert(short.subrange(0, len) == word);
    let long = (seq!['/'] + word + seq![blank] + tail).skip(1);
    assert(long == word + seq![blank] + tail);
    assert(long[len] == blank);
    assert(is_plain_run(long, 0, len)) by {
        assert forall|i: int| 0 <= i < len implies long[i] == word[i] by {}
    }
    assert(long.subrange(0, len) == word);
    assert(long.skip(len + 1) == tail);
}

/// Whether input that could be a slash command names a file instead. If it does,
/// the state that handles the text after the slash as ordinary input.
pub fn does_input_reference_file(input: &str) -> (state: Option<ChatState>)
    ensures
        is_verdict(input@, state),
{
    let len: usize = input.unicode_len();
    if len == 0 || input.get_char(0) != '/' {
        return None;
    }
    let after_slash: &str = input.substring_char(1, len);
    assert(after_slash@ == input@.skip(1));
    proof {
        assert forall|word: Seq<char>| #[trigger] looks_like_path(word, '\\') == looks_like_path(
            word,
            '/',
        ) by {
            law_either_separator_gives_the_same_answer(word);
        }
    }
    let words: Option<Vec<String>> = split_words(after_slash);
    proof {
        let text = after_slash@;
        assert forall|start: int, end: int| #[trigger]
            is_first_run(text, start, end) && is_plain_text(text) implies is_plain_run(
            text,
            start,
            end,
        ) by {}
        if forall|i: int| 1 <= i < input@.len() ==> is_blank(#[trigger] input@[i]) {
            assert forall|i: int| 0 <= i < text.len() implies is_blank(#[trigger] text[i]) by {
                assert(text[i] == input@[i + 1]);
            }
        }
    }
    file_reference(after_slash, words, main_separator())
}

/// A word looks like a path exactly where one of its characters is a slash, a backslash, a
/// dot or the separator, wherever in the word it stands.
pub proof fn law_one_character_makes_a_path(word: &str, separator: char, result: bool)
    requires
        call_ensures(is_path_like, (word, separator), result),
    ensures
        result <==> exists|i: int|
            0 <= i < word@.len() && (#[trigger] word@[i] == '/' || word@[i] == '\\' || word@[i] == '.'
                || word@[i] == separator),
{
    lemma_path_characters(word@, separator);
}

/// The characters that make a path, by their places.
proof fn lemma_path_characters(word: Seq<char>, separator: char)
    ensures
        looks_like_path(word, separator) <==> exists|i: int|
            0 <= i < word.len() && (#[trigger] word[i] == '/' || word[i] == '\\' || word[i] == '.'
                || word[i] == separator),
{
    assert forall|i: int|
        0 <= i < word.len() && (#[trigger] word[i] == '/' || word[i] == '\\' || word[i] == '.'
            || word[i] == separator) implies looks_like_path(word, separator) by {
        assert(word.contains(word[i]));
    }
}

/// Given its words, input is handled exactly where there is a first word and one of its
/// characters is that of a path, and what is handled is the text that was given.
pub proof fn law_first_word_decides(
    after_slash: &str,
    words: Option<Vec<String>>,
    separator: char,
    state: Option<ChatState>,
)
    requires
        call_ensures(file_reference, (after_slash, words, separator), state),
    ensures
        state is Some <==> words is Some && words->0@.len() > 0 && exists|i: int|
            0 <= i < words->0@[0]@.len() && (#[trigger] words->0@[0]@[i] == '/' || words->0@[0]@[i]
                == '\\' || words->0@[0]@[i] == '.' || words->0@[0]@[i] == separator),
        state is Some ==> state->0 is HandleInput && state->0->input@ == after_slash@,
{
    if words is Some && words->0@.len() > 0 {
        assert(words_view(words)->0[0] == words->0@[0]@);
        lemma_path_characters(words->0@[0]@, separator);
    }
}

/// Input is taken for a file exactly where it starts with a slash and one character of the
/// first word after the slash is a slash, a backslash or a dot. A slash and what is handled
/// then are the input again.
pub proof fn law_slash_and_handled_text_are_the_input(input: &str, state: Option<ChatState>)
    requires
        call_ensures(does_input_reference_file, (input,), state),
    ensures
        state is Some <==> input@.len() > 0 && input@[0] == '/' && shell_words(input@.skip(1)) is Some
            && shell_words(input@.skip(1))->0.len() > 0 && exists|i: int|
            0 <= i < shell_words(input@.skip(1))->0[0].len() && (#[trigger] shell_words(
                input@.skip(1),
            )->0[0][i] == '/' || shell_words(input@.skip(1))->0[0][i] == '\\' || shell_words(
                input@.skip(1),
            )->0[0][i] == '.'),
        state is Some ==> state->0 is HandleInput && seq!['/'] + state->0->input@ == input@,
{
    let words = shell_words(input@.skip(1));
    if words is Some && words->0.len() > 0 {
        lemma_path_characters(words->0[0], '/');
    }
    if state is Some {
        assert(seq!['/'] + input@.skip(1) == input@);
    }
}

/// Where a slash is followed by a word without blanks, quotes, backslashes and number
/// signs, and that word by nothing, or by a blank and text that is no error, the input is
/// taken for a file exactly where one character of the word is a slash or a dot.
pub proof fn law_plain_word_with_a_dot_or_slash_is_a_file(
    input: &str,
    word: Seq<char>,
    rest: Seq<char>,
    state: Option<ChatState>,
)
    requires
        call_ensures(does_input_reference_file, (input,), state),
        input@ == seq!['/'] + word + rest,
        word.len() > 0,
        forall|i: int|
            0 <= i < word.len() ==> #[trigger] word[i] != ' ' && word[i] != '\t' && word[i] != '\n'
                && word[i] != '"' && word[i] != '\'' && word[i] != '\\' && word[i] != '#',
        rest.len() > 0 ==> (rest[0] == ' ' || rest[0] == '\t' || rest[0] == '\n') && shell_words(
            rest.skip(1),
        ) is Some,
    ensures
        state is Some <==> exists|i: int|
            0 <= i < word.len() && (#[trigger] word[i] == '/' || word[i] == '.'),
        state is Some ==> state->0 is HandleInput && state->0->input@ == word + rest,
{
    let text = input@.skip(1);
    let len = word.len() as int;
    assert(text == word + rest);
    assert forall|i: int| 0 <= i < len implies text[i] == word[i] by {}
    if rest.len() > 0 {
        assert(text[len] == rest[0]);
        assert(text.skip(len + 1) == rest.skip(1));
    }
    assert(is_plain_run(text, 0, len));
    assert(text.subrange(0, len) == word);
    lemma_path_characters(word, '/');
}

} // verus!

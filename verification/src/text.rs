//! Text primitives: characters, prefixes, substrings and trimming, all stated
//! over the sequence of characters of a string.

use vstd::prelude::*;

verus! {

/// The characters with the Unicode property `White_Space`.
pub open spec fn is_white_space(c: char) -> bool {
    ||| '\u{9}' <= c <= '\u{d}'
    ||| c == '\u{20}'
    ||| c == '\u{85}'
    ||| c == '\u{a0}'
    ||| c == '\u{1680}'
    ||| '\u{2000}' <= c <= '\u{200a}'
    ||| c == '\u{2028}'
    ||| c == '\u{2029}'
    ||| c == '\u{202f}'
    ||| c == '\u{205f}'
    ||| c == '\u{3000}'
}

/// `s` without its leading white space.
pub open spec fn trimmed_start(s: Seq<char>) -> Seq<char>
    decreases s.len(),
{
    if s.len() > 0 && is_white_space(s.first()) {
        trimmed_start(s.drop_first())
    } else {
        s
    }
}

/// `s` without its trailing white space.
pub open spec fn trimmed_end(s: Seq<char>) -> Seq<char>
    decreases s.len(),
{
    if s.len() > 0 && is_white_space(s.last()) {
        trimmed_end(s.drop_last())
    } else {
        s
    }
}

/// `s` without its leading and trailing white space.
pub open spec fn trimmed(s: Seq<char>) -> Seq<char> {
    trimmed_end(trimmed_start(s))
}

/// `needle` occurs in `text` as a run of consecutive characters.
pub open spec fn occurs_in(needle: Seq<char>, text: Seq<char>) -> bool {
    exists|i: int| #[trigger] occurs_at(needle, text, i)
}

/// `needle` occurs in `text` at position `i`.
pub open spec fn occurs_at(needle: Seq<char>, text: Seq<char>, i: int) -> bool {
    &&& 0 <= i
    &&& i + needle.len() <= text.len()
    &&& text.subrange(i, i + needle.len()) == needle
}

/// The characters of each string of a list.
pub open spec fn texts(list: Seq<String>) -> Seq<Seq<char>> {
    list.map_values(|s: String| s@)
}

/// The parts in a row, with `separator` between each two of them.
pub open spec fn joined(parts: Seq<Seq<char>>, separator: Seq<char>) -> Seq<char>
    decreases parts.len(),
{
    if parts.len() == 0 {
        seq![]
    } else {
        let gap = if parts.len() > 1 {
            separator
        } else {
            seq![]
        };
        joined(parts.drop_last(), separator) + gap + parts.last()
    }
}

/// Whether `c` has the Unicode property `White_Space`.
pub fn char_is_white_space(c: char) -> (result: bool)
    ensures
        result == is_white_space(c),
{
    ('\u{9}' <= c && c <= '\u{d}') || c == '\u{20}' || c == '\u{85}' || c == '\u{a0}' || c
        == '\u{1680}' || ('\u{2000}' <= c && c <= '\u{200a}') || c == '\u{2028}' || c == '\u{2029}'
        || c == '\u{202f}' || c == '\u{205f}' || c == '\u{3000}'
}

/// The characters of a string, in order.
pub fn characters(s: &str) -> (result: Vec<char>)
    ensures
        result@ == s@,
{
    let mut result: Vec<char> = Vec::new();
    for c in iter: s.chars()
        invariant
            iter.seq() == s@,
            result@ == s@.take(iter.index()),
    {
        result.push(c);
    }
    result
}

/// Whether two strings hold the same characters.
pub fn same_text(a: &str, b: &str) -> (result: bool)
    ensures
        result == (a@ == b@),
{
    let left: Vec<char> = characters(a);
    let right: Vec<char> = characters(b);
    assert(a@.subrange(0, a@.len() as int) == a@);
    left.len() == right.len() && matches_at(&right, &left, 0)
}

/// Whether `s` begins with `prefix`.
pub fn starts_with(s: &str, prefix: &str) -> (result: bool)
    ensures
        result == prefix@.is_prefix_of(s@),
{
    let text: Vec<char> = characters(s);
    let head: Vec<char> = characters(prefix);
    head.len() <= text.len() && matches_at(&head, &text, 0)
}

/// Whether the character `c` occurs in `s`.
pub fn contains_char(s: &str, c: char) -> (result: bool)
    ensures
        result == s@.contains(c),
{
    let text: Vec<char> = characters(s);
    let mut i: usize = 0;
    while i < text.len()
        invariant
            i <= text.len(),
            text@ == s@,
            forall|j: int| 0 <= j < i ==> s@[j] != c,
        decreases text.len() - i,
    {
        if text[i] == c {
            assert(s@[i as int] == c);
            return true;
        }
        i = i + 1;
    }
    false
}

/// Whether `needle` occurs in `s`.
pub fn contains_text(s: &str, needle: &str) -> (result: bool)
    ensures
        result == occurs_in(needle@, s@),
{
    let text: Vec<char> = characters(s);
    let wanted: Vec<char> = characters(needle);
    if wanted.len() > text.len() {
        return false;
    }
    let last: usize = text.len() - wanted.len();
    let mut i: usize = 0;
    loop
        invariant
            text@ == s@,
            wanted@ == needle@,
            wanted.len() <= text.len(),
            last == text.len() - wanted.len(),
            i <= last,
            forall|j: int| 0 <= j < i ==> !occurs_at(needle@, s@, j),
        decreases last - i,
    {
        if matches_at(&wanted, &text, i) {
            assert(occurs_at(needle@, s@, i as int));
            return true;
        }
        if i == last {
            return false;
        }
        i = i + 1;
    }
}

/// Whether `wanted` stands in `text` at position `at`.
fn matches_at(wanted: &Vec<char>, text: &Vec<char>, at: usize) -> (result: bool)
    requires
        at + wanted.len() <= text.len(),
    ensures
        result == (text@.subrange(at as int, at + wanted.len()) == wanted@),
{
    let mut i: usize = 0;
    while i < wanted.len()
        invariant
            i <= wanted.len(),
            at + wanted.len() <= text.len(),
            forall|j: int| 0 <= j < i ==> text@[at + j] == wanted@[j],
        decreases wanted.len() - i,
    {
        if text[at + i] != wanted[i] {
            assert(text@.subrange(at as int, at + wanted.len())[i as int] != wanted@[i as int]);
            return false;
        }
        i = i + 1;
    }
    assert(text@.subrange(at as int, at + wanted.len()) =~= wanted@);
    true
}

/// The strings of a list in a row, with `separator` between each two of them.
pub fn join(list: &Vec<String>, separator: &str) -> (result: String)
    ensures
        result@ == joined(texts(list@), separator@),
{
    let mut result: String = String::new();
    let mut i: usize = 0;
    while i < list.len()
        invariant
            i <= list.len(),
            result@ == joined(texts(list@).take(i as int), separator@),
        decreases list.len() - i,
    {
        if i > 0 {
            result.append(separator);
        }
        result.append(list[i].as_str());
        assert(texts(list@).take(i + 1).drop_last() == texts(list@).take(i as int));
        i = i + 1;
    }
    assert(texts(list@).take(list.len() as int) == texts(list@));
    result
}

/// Whether one of the strings of a list is `s`.
pub fn list_contains(list: &Vec<String>, s: &str) -> (result: bool)
    ensures
        result == texts(list@).contains(s@),
{
    let mut i: usize = 0;
    while i < list.len()
        invariant
            i <= list.len(),
            forall|j: int| 0 <= j < i ==> texts(list@)[j] != s@,
        decreases list.len() - i,
    {
        if same_text(list[i].as_str(), s) {
            assert(texts(list@)[i as int] == s@);
            return true;
        }
        i = i + 1;
    }
    false
}

/// A copy of a list of strings.
pub fn copy_list(list: &Vec<String>) -> (result: Vec<String>)
    ensures
        result@ == list@,
{
    let mut result: Vec<String> = Vec::new();
    let mut i: usize = 0;
    while i < list.len()
        invariant
            i <= list.len(),
            result@ == list@.take(i as int),
        decreases list.len() - i,
    {
        result.push(list[i].clone());
        i = i + 1;
    }
    result
}

/// A copy of an optional string.
pub fn copy_optional(s: &Option<String>) -> (result: Option<String>)
    ensures
        result == *s,
{
    match s {
        Some(s) => Some(s.clone()),
        None => None,
    }
}

/// `s` without its leading and trailing white space.
pub fn trim(s: &str) -> (result: String)
    ensures
        result@ == trimmed(s@),
{
    let text: Vec<char> = characters(s);
    let mut start: usize = 0;
    assert(s@.skip(0) == s@);
    while start < text.len() && char_is_white_space(text[start])
        invariant
            start <= text.len(),
            text@ == s@,
            trimmed_start(s@) == trimmed_start(s@.skip(start as int)),
        decreases text.len() - start,
    {
        assert(s@.skip(start as int).drop_first() == s@.skip(start + 1));
        start = start + 1;
    }
    let ghost kept = trimmed_start(s@);
    assert(kept == s@.skip(start as int));
    let mut end: usize = text.len();
    while end > start && char_is_white_space(text[end - 1])
        invariant
            start <= end <= text.len(),
            text@ == s@,
            kept == s@.skip(start as int),
            trimmed_end(kept) == trimmed_end(s@.subrange(start as int, end as int)),
        decreases end,
    {
        assert(s@.subrange(start as int, end as int).drop_last() == s@.subrange(
            start as int,
            end - 1,
        ));
        end = end - 1;
    }
    s.substring_char(start, end).to_string()
}

/// Trimming takes nothing but white space, and only from the two ends.
pub proof fn law_trim_removes_white_space_at_the_ends(s: Seq<char>)
    ensures
        exists|start: int, end: int|
            #![trigger s.subrange(start, end)]
            0 <= start <= end <= s.len() && trimmed(s) == s.subrange(start, end) && (forall|i: int|
                0 <= i < start || end <= i < s.len() ==> is_white_space(#[trigger] s[i])),
        trimmed(s).len() > 0 ==> !is_white_space(trimmed(s).first()) && !is_white_space(
            trimmed(s).last(),
        ),
{
    let kept = trimmed_start(s);
    let start = lemma_trimmed_start(s);
    let len = lemma_trimmed_end(kept);
    assert(trimmed(s) == s.subrange(start, start + len));
    assert forall|i: int| 0 <= i < start || start + len <= i < s.len() implies is_white_space(
        #[trigger] s[i],
    ) by {
        if start + len <= i {
            assert(kept[i - start] == s[i]);
        }
    }
}

/// Trimming a second time changes nothing.
pub proof fn law_trim_is_idempotent(s: Seq<char>)
    ensures
        trimmed(trimmed(s)) == trimmed(s),
{
    law_trim_removes_white_space_at_the_ends(s);
}

/// Text is trimmed to nothing exactly when it holds nothing but white space.
pub proof fn law_trim_of_blank_text_is_empty(s: Seq<char>)
    ensures
        trimmed(s).len() == 0 <==> forall|i: int| 0 <= i < s.len() ==> is_white_space(s[i]),
{
    law_trim_removes_white_space_at_the_ends(s);
    let (start, end) = choose|start: int, end: int|
        #![trigger s.subrange(start, end)]
        0 <= start <= end <= s.len() && trimmed(s) == s.subrange(start, end) && (forall|i: int|
            0 <= i < start || end <= i < s.len() ==> is_white_space(#[trigger] s[i]));
    if trimmed(s).len() > 0 {
        assert(s[start] == trimmed(s).first());
    }
}

/// What `trimmed_start` keeps is a suffix; `start` is where it begins.
proof fn lemma_trimmed_start(s: Seq<char>) -> (start: int)
    ensures
        0 <= start <= s.len(),
        trimmed_start(s) == s.skip(start),
        forall|i: int| 0 <= i < start ==> is_white_space(#[trigger] s[i]),
        start < s.len() ==> !is_white_space(s[start]),
    decreases s.len(),
{
    if s.len() > 0 && is_white_space(s.first()) {
        let rest = s.drop_first();
        let inner = lemma_trimmed_start(rest);
        assert(rest.skip(inner) == s.skip(inner + 1));
        assert forall|i: int| 0 <= i < inner + 1 implies is_white_space(#[trigger] s[i]) by {
            if i > 0 {
                assert(rest[i - 1] == s[i]);
            }
        }
        if inner < rest.len() {
            assert(rest[inner] == s[inner + 1]);
        }
        inner + 1
    } else {
        assert(s.skip(0) == s);
        0
    }
}

/// What `trimmed_end` keeps is a prefix; `len` is its length.
proof fn lemma_trimmed_end(s: Seq<char>) -> (len: int)
    ensures
        0 <= len <= s.len(),
        trimmed_end(s) == s.take(len),
        forall|i: int| len <= i < s.len() ==> is_white_space(#[trigger] s[i]),
        len > 0 ==> !is_white_space(s[len - 1]),
    decreases s.len(),
{
    if s.len() > 0 && is_white_space(s.last()) {
        let rest = s.drop_last();
        let len = lemma_trimmed_end(rest);
        assert(rest.take(len) == s.take(len));
        assert forall|i: int| len <= i < s.len() implies is_white_space(#[trigger] s[i]) by {
            if i < rest.len() {
                assert(rest[i] == s[i]);
            }
        }
        len
    } else {
        assert(s.take(s.len() as int) == s);
        s.len() as int
    }
}

/// A search finds a text exactly where it stands: it is found if it can be cut out of the
/// searched text at some position, and not otherwise.
pub proof fn law_search_finds_what_is_there(s: &str, needle: &str, found: bool)
    requires
        call_ensures(contains_text, (s, needle), found),
    ensures
        found <==> exists|i: int|
            0 <= i && i + needle@.len() <= s@.len() && #[trigger] s@.subrange(i, i + needle@.len())
                == needle@,
{
    if found {
        let i = choose|i: int| #[trigger] occurs_at(needle@, s@, i);
        assert(s@.subrange(i, i + needle@.len()) == needle@);
    }
    assert forall|i: int|
        0 <= i && i + needle@.len() <= s@.len() && #[trigger] s@.subrange(i, i + needle@.len())
            == needle@ implies found by {
        assert(occurs_at(needle@, s@, i));
    }
}

/// What stands between any two texts is found in the whole.
pub proof fn law_search_finds_between(
    s: &str,
    needle: &str,
    before: Seq<char>,
    after: Seq<char>,
    found: bool,
)
    requires
        call_ensures(contains_text, (s, needle), found),
        s@ == before + needle@ + after,
    ensures
        found,
{
    let at = before.len() as int;
    assert(s@.subrange(at, at + needle@.len()) == needle@);
    assert(occurs_at(needle@, s@, at));
}

/// The texts of a list are those of its strings, one by one and in order.
pub proof fn law_texts_are_those_of_the_strings(list: Seq<String>)
    ensures
        texts(list).len() == list.len(),
        forall|i: int| 0 <= i < list.len() ==> #[trigger] texts(list)[i] == list[i]@,
{
}

/// Nothing joins to nothing, one string to itself, and two lists to the one, the
/// separator and the other.
pub proof fn law_joining_adds_up(
    first: Vec<String>,
    second: Vec<String>,
    both: Vec<String>,
    separator: &str,
    left: String,
    right: String,
    whole: String,
)
    requires
        call_ensures(join, (&first, separator), left),
        call_ensures(join, (&second, separator), right),
        call_ensures(join, (&both, separator), whole),
        both@ == first@ + second@,
    ensures
        first@.len() == 0 ==> left@.len() == 0,
        first@.len() == 1 ==> left@ == first@[0]@,
        first@.len() > 0 && second@.len() > 0 ==> whole@ == left@ + separator@ + right@,
        first@.len() == 0 ==> whole@ == right@,
        second@.len() == 0 ==> whole@ == left@,
{
    assert(texts(both@) == texts(first@) + texts(second@));
    if first@.len() == 0 {
        assert(texts(both@) == texts(second@));
    }
    if second@.len() == 0 {
        assert(texts(both@) == texts(first@));
    }
    if first@.len() == 1 {
        reveal_with_fuel(joined, 2);
        assert(texts(first@).last() == first@[0]@);
        assert(left@ == first@[0]@);
    }
    if first@.len() > 0 && second@.len() > 0 {
        lemma_joined_adds_up(texts(first@), texts(second@), separator@);
    }
}

/// The parts of two lists join to those of the one, the separator and those of the other.
proof fn lemma_joined_adds_up(
    first: Seq<Seq<char>>,
    second: Seq<Seq<char>>,
    separator: Seq<char>,
)
    requires
        first.len() > 0,
        second.len() > 0,
    ensures
        joined(first + second, separator) == joined(first, separator) + separator + joined(
            second,
            separator,
        ),
    decreases second.len(),
{
    assert((first + second).drop_last() == first + second.drop_last());
    assert((first + second).last() == second.last());
    if second.len() == 1 {
        assert(first + second.drop_last() == first);
        reveal_with_fuel(joined, 2);
    } else {
        lemma_joined_adds_up(first, second.drop_last(), separator);
    }
}

/// Trimming keeps one unbroken stretch of the text: all before it and all after it is
/// white space, and neither its first nor its last character is.
pub proof fn law_trim_keeps_the_stretch_between(s: &str, result: String)
    requires
        call_ensures(trim, (s,), result),
    ensures
        exists|start: int, end: int|
            #![trigger s@.subrange(start, end)]
            0 <= start <= end <= s@.len() && result@ == s@.subrange(start, end) && (forall|i: int|
                0 <= i < start || end <= i < s@.len() ==> is_white_space(#[trigger] s@[i])) && (start
                < end ==> !is_white_space(s@[start]) && !is_white_space(s@[end - 1])),
{
    law_trim_removes_white_space_at_the_ends(s@);
    let (start, end) = choose|start: int, end: int|
        #![trigger s@.subrange(start, end)]
        0 <= start <= end <= s@.len() && trimmed(s@) == s@.subrange(start, end) && (forall|i: int|
            0 <= i < start || end <= i < s@.len() ==> is_white_space(#[trigger] s@[i]));
    if start < end {
        assert(trimmed(s@).first() == s@[start]);
        assert(trimmed(s@).last() == s@[end - 1]);
    }
    assert(result@ == s@.subrange(start, end));
}

/// Two texts are the same exactly where they have the same length and the same character
/// at every place.
pub proof fn law_same_texts_agree_everywhere(a: &str, b: &str, same: bool)
    requires
        call_ensures(same_text, (a, b), same),
    ensures
        same <==> a@.len() == b@.len() && forall|i: int|
            0 <= i < a@.len() ==> #[trigger] a@[i] == b@[i],
{
    if a@.len() == b@.len() && forall|i: int| 0 <= i < a@.len() ==> #[trigger] a@[i] == b@[i] {
        assert(a@ == b@);
    }
}

/// A text starts with another exactly where it is that other with something after it.
pub proof fn law_prefix_and_rest_are_the_text(s: &str, prefix: &str, starts: bool)
    requires
        call_ensures(starts_with, (s, prefix), starts),
    ensures
        starts <==> exists|rest: Seq<char>| s@ == #[trigger] (prefix@ + rest),
{
    if starts {
        assert(s@ == prefix@ + s@.skip(prefix@.len() as int));
    }
    assert forall|rest: Seq<char>| s@ == #[trigger] (prefix@ + rest) implies starts by {
        assert(s@.subrange(0, prefix@.len() as int) == prefix@);
    }
}

/// A character or a string is found exactly where it stands at some place.
pub proof fn law_membership_is_by_place(
    s: &str,
    c: char,
    list: Vec<String>,
    has_char: bool,
    has_text: bool,
)
    requires
        call_ensures(contains_char, (s, c), has_char),
        call_ensures(list_contains, (&list, s), has_text),
    ensures
        has_char <==> exists|i: int| 0 <= i < s@.len() && #[trigger] s@[i] == c,
        has_text <==> exists|i: int| 0 <= i < list@.len() && (#[trigger] list@[i])@ == s@,
{
    if has_text {
        let i = choose|i: int| 0 <= i < texts(list@).len() && texts(list@)[i] == s@;
        assert(list@[i]@ == s@);
    }
    assert forall|i: int| 0 <= i < list@.len() && (#[trigger] list@[i])@ == s@ implies has_text by {
        assert(texts(list@)[i] == s@);
    }
}

/// Copies hold what was copied, and the characters of a string are those of the string.
pub proof fn law_copies_are_faithful(
    s: &str,
    list: Vec<String>,
    optional: Option<String>,
    of_text: Vec<char>,
    of_list: Vec<String>,
    of_optional: Option<String>,
)
    requires
        call_ensures(characters, (s,), of_text),
        call_ensures(copy_list, (&list,), of_list),
        call_ensures(copy_optional, (&optional,), of_optional),
    ensures
        of_text@ == s@,
        of_list@ == list@,
        of_optional == optional,
{
}

} // verus!

//! Searching and cutting text, as sequences of characters.

use vstd::prelude::*;

verus! {

/// `pattern` stands in `text` at position `at`.
pub open spec fn occurs_at(text: Seq<char>, pattern: Seq<char>, at: int) -> bool {
    &&& 0 <= at
    &&& at + pattern.len() <= text.len()
    &&& text.subrange(at, at + pattern.len()) == pattern
}

/// The first position at or after `from` where `pattern` stands in `text`.
pub open spec fn first_occurrence(text: Seq<char>, pattern: Seq<char>, from: int) -> Option<int>
    decreases text.len() - from,
{
    if from < 0 || from + pattern.len() > text.len() {
        None
    } else if occurs_at(text, pattern, from) {
        Some(from)
    } else if from >= text.len() {
        None
    } else {
        first_occurrence(text, pattern, from + 1)
    }
}

/// `text` begins with `prefix`.
pub open spec fn starts_with(text: Seq<char>, prefix: Seq<char>) -> bool {
    occurs_at(text, prefix, 0)
}

/// The pieces of `text` between the occurrences of a separator that is not empty, found
/// from left to right without overlap. There is always at least one piece; with no
/// occurrence it is the whole text.
pub open spec fn split(text: Seq<char>, separator: Seq<char>) -> Seq<Seq<char>>
    decreases text.len(),
{
    match first_occurrence(text, separator, 0) {
        Some(at) if separator.len() > 0 && 0 <= at && at + separator.len() <= text.len() => seq![
            text.subrange(0, at),
        ] + split(text.subrange(at + separator.len(), text.len() as int), separator),
        _ => seq![text],
    }
}

/// The first of `pieces` that begins with `prefix`.
pub open spec fn first_starting_with(pieces: Seq<Seq<char>>, prefix: Seq<char>) -> Option<
    Seq<char>,
>
    decreases pieces.len(),
{
    if pieces.len() == 0 {
        None
    } else if starts_with(pieces[0], prefix) {
        Some(pieces[0])
    } else {
        first_starting_with(pieces.drop_first(), prefix)
    }
}

/// What follows the last `mark` in `text`; all of `text` where it holds no `mark`.
pub open spec fn after_last(text: Seq<char>, mark: char) -> Seq<char>
    decreases text.len(),
{
    if text.len() == 0 {
        text
    } else if text.last() == mark {
        Seq::empty()
    } else {
        after_last(text.drop_last(), mark).push(text.last())
    }
}

/// Where `first_occurrence` finds something, the pattern stands there and nowhere
/// between `from` and there; where it finds nothing, the pattern stands nowhere from
/// `from` on.
pub proof fn lemma_first_occurrence(text: Seq<char>, pattern: Seq<char>, from: int)
    requires
        0 <= from,
    ensures
        match first_occurrence(text, pattern, from) {
            Some(at) => {
                &&& from <= at
                &&& occurs_at(text, pattern, at)
                &&& forall|i: int| from <= i < at ==> !occurs_at(text, pattern, i)
            },
            None => forall|i: int| from <= i ==> !occurs_at(text, pattern, i),
        },
    decreases text.len() - from,
{
    if from + pattern.len() <= text.len() && !occurs_at(text, pattern, from) {
        if from < text.len() {
            lemma_first_occurrence(text, pattern, from + 1);
        } else {
            assert(text.subrange(from, from + pattern.len()) =~= pattern);
        }
    }
}

/// Searching the rest of a text from `start` on is searching the text from there, with
/// positions counted from `start`.
pub proof fn lemma_first_occurrence_in_rest(
    text: Seq<char>,
    pattern: Seq<char>,
    start: int,
    from: int,
)
    requires
        0 <= start <= from,
        start <= text.len(),
    ensures
        first_occurrence(text.subrange(start, text.len() as int), pattern, from - start) == (
        match first_occurrence(text, pattern, from) {
            Some(at) => Some(at - start),
            None => None,
        }),
    decreases text.len() - from,
{
    let rest = text.subrange(start, text.len() as int);
    if from + pattern.len() <= text.len() {
        assert(rest.subrange(from - start, from - start + pattern.len()) =~= text.subrange(
            from,
            from + pattern.len(),
        ));
        if !occurs_at(text, pattern, from) && from < text.len() {
            lemma_first_occurrence_in_rest(text, pattern, start, from + 1);
        }
    }
}

/// What follows the last `mark` starts at `cut` if no `mark` stands from `cut` on and
/// one stands just before `cut`, or `cut` is the start of the text.
pub proof fn lemma_after_last(text: Seq<char>, mark: char, cut: int)
    requires
        0 <= cut <= text.len(),
        forall|i: int| cut <= i < text.len() ==> text[i] != mark,
        cut == 0 || text[cut - 1] == mark,
    ensures
        after_last(text, mark) == text.subrange(cut, text.len() as int),
    decreases text.len(),
{
    if text.len() == 0 {
        assert(text.subrange(0, 0) =~= text);
    } else if cut == text.len() {
        assert(text.subrange(cut, text.len() as int) =~= Seq::<char>::empty());
    } else {
        lemma_after_last(text.drop_last(), mark, cut);
        assert(text.drop_last().subrange(cut, text.len() - 1).push(text.last()) =~= text.subrange(
            cut,
            text.len() as int,
        ));
    }
}

/// The characters of a text, in order.
pub fn chars_of(text: &str) -> (chars: Vec<char>)
    ensures
        chars@ == text@,
{
    let mut chars: Vec<char> = Vec::new();
    for c in it: text.chars()
        invariant
            chars@ == it.seq().take(it.index()),
            it.seq() == text@,
    {
        chars.push(c);
    }
    chars
}

/// Whether `pattern` stands in `text` at position `at`.
pub fn matches_at(text: &Vec<char>, pattern: &Vec<char>, at: usize) -> (found: bool)
    ensures
        found == occurs_at(text@, pattern@, at as int),
{
    if pattern.len() > text.len() || at > text.len() - pattern.len() {
        return false;
    }
    let mut i: usize = 0;
    while i < pattern.len()
        invariant
            i <= pattern.len(),
            at + pattern.len() <= text.len(),
            forall|j: int| 0 <= j < i ==> text[at + j] == pattern[j],
        decreases pattern.len() - i,
    {
        if text[at + i] != pattern[i] {
            assert(text@.subrange(at as int, at + pattern.len())[i as int] != pattern@[i as int]);
            return false;
        }
        i += 1;
    }
    assert(text@.subrange(at as int, at + pattern.len()) =~= pattern@);
    true
}

/// The first position at or after `from` where `pattern` stands in `text`.
pub fn find(text: &Vec<char>, pattern: &Vec<char>, from: usize) -> (found: Option<usize>)
    ensures
        match found {
            Some(at) => first_occurrence(text@, pattern@, from as int) == Some(at as int),
            None => first_occurrence(text@, pattern@, from as int) is None,
        },
{
    if pattern.len() > text.len() || from > text.len() - pattern.len() {
        return None;
    }
    if pattern.len() == 0 {
        assert(text@.subrange(from as int, from as int) =~= pattern@);
        return Some(from);
    }
    let last: usize = text.len() - pattern.len();
    let mut at: usize = from;
    while at <= last
        invariant
            from <= at <= last + 1,
            last == text.len() - pattern.len(),
            pattern.len() > 0,
            first_occurrence(text@, pattern@, from as int) == first_occurrence(
                text@,
                pattern@,
                at as int,
            ),
        decreases last + 1 - at,
    {
        if matches_at(text, pattern, at) {
            return Some(at);
        }
        at += 1;
    }
    None
}

} // verus!

//! Text: white space, the words of a name, and how names are rewritten into
//! parts of a path.

use vstd::prelude::*;

verus! {

/// Whether `c` is white space: a character with Unicode's `White_Space`
/// property.
pub open spec fn white(c: char) -> bool {
    ||| ('\u{9}' <= c && c <= '\u{d}')
    ||| c == ' '
    ||| c == '\u{85}'
    ||| c == '\u{a0}'
    ||| c == '\u{1680}'
    ||| ('\u{2000}' <= c && c <= '\u{200a}')
    ||| c == '\u{2028}'
    ||| c == '\u{2029}'
    ||| c == '\u{202f}'
    ||| c == '\u{205f}'
    ||| c == '\u{3000}'
}

/// Where the run of characters that are not white space, which starts at
/// `from`, ends: at the first white space at or behind `from`, or at the end
/// of `text`.
pub open spec fn word_end(text: Seq<char>, from: int) -> int
    recommends
        0 <= from,
    decreases text.len() - from,
{
    if from >= text.len() || white(text[from]) {
        from
    } else {
        word_end(text, from + 1)
    }
}

/// The words of `text` that start at or behind `from`, in order. A word is a
/// longest run of characters that are not white space.
pub open spec fn words_from(text: Seq<char>, from: int) -> Seq<Seq<char>>
    recommends
        0 <= from,
    decreases text.len() - from,
    via words_from_terminates
{
    if from >= text.len() {
        Seq::empty()
    } else if white(text[from]) {
        words_from(text, from + 1)
    } else {
        seq![text.subrange(from, word_end(text, from))] + words_from(text, word_end(text, from))
    }
}

#[via_fn]
proof fn words_from_terminates(text: Seq<char>, from: int) {
    if from < text.len() && !white(text[from]) {
        lemma_word_end_bounds(text, from + 1);
    }
}

/// The words of `text`, in order.
pub open spec fn words(text: Seq<char>) -> Seq<Seq<char>> {
    words_from(text, 0)
}

/// The text of a string that may be absent.
pub open spec fn text_of(value: Option<String>) -> Option<Seq<char>> {
    match value {
        Some(s) => Some(s@),
        None => None,
    }
}

/// The text of a string slice that may be absent.
pub open spec fn str_of(value: Option<&str>) -> Option<Seq<char>> {
    match value {
        Some(s) => Some(s@),
        None => None,
    }
}

/// The texts that a list of strings holds.
pub open spec fn texts(list: Seq<String>) -> Seq<Seq<char>> {
    list.map_values(|s: String| s@)
}

/// The lower-case form of `text`, as `str::to_lowercase` of the standard
/// library gives it.
pub uninterp spec fn lowercase_of(text: Seq<char>) -> Seq<char>;

/// Each word in lower case.
pub open spec fn lowered(list: Seq<Seq<char>>) -> Seq<Seq<char>> {
    list.map_values(|word: Seq<char>| lowercase_of(word))
}

/// The parts of `list` written one after the other, with `separator` between
/// each two of them.
pub open spec fn joined_words(list: Seq<Seq<char>>, separator: Seq<char>) -> Seq<char>
    decreases list.len(),
{
    if list.len() == 0 {
        Seq::empty()
    } else if list.len() == 1 {
        list[0]
    } else {
        joined_words(list.drop_last(), separator) + separator + list.last()
    }
}

/// `text` with a hyphen in place of each white-space character.
pub open spec fn hyphenated(text: Seq<char>) -> Seq<char> {
    text.map_values(
        |c: char|
            if white(c) {
                '-'
            } else {
                c
            },
    )
}

/// Where the part of `text[..end]` behind its last `.` starts, or 0 if it
/// holds no `.`.
pub open spec fn suffix_start(text: Seq<char>, end: int) -> int
    recommends
        end <= text.len(),
    decreases end,
{
    if end <= 0 {
        0
    } else if text[end - 1] == '.' {
        end
    } else {
        suffix_start(text, end - 1)
    }
}

/// The part of a dotted name behind its last `.`; the whole name if it holds
/// no `.`.
pub open spec fn unqualified(name: Seq<char>) -> Seq<char> {
    name.skip(suffix_start(name, name.len() as int))
}

/// A word ends at or behind the place where it starts, and inside the text.
pub proof fn lemma_word_end_bounds(text: Seq<char>, from: int)
    requires
        from <= text.len(),
    ensures
        from <= word_end(text, from) <= text.len(),
    decreases text.len() - from,
{
    if from < text.len() && !white(text[from]) {
        lemma_word_end_bounds(text, from + 1);
    }
}

/// `suffix_start` marks the last `.`: it lies inside the text, no `.` stands
/// at or behind it, and a `.` stands right before it unless it is 0.
pub proof fn lemma_suffix_start(text: Seq<char>, end: int)
    requires
        0 <= end <= text.len(),
    ensures
        0 <= suffix_start(text, end) <= end,
        forall|i: int| suffix_start(text, end) <= i < end ==> text[i] != '.',
        suffix_start(text, end) > 0 ==> text[suffix_start(text, end) - 1] == '.',
    decreases end,
{
    if end > 0 && text[end - 1] != '.' {
        lemma_suffix_start(text, end - 1);
    }
}

/// Whether `c` is white space.
pub fn is_whitespace(c: char) -> (b: bool)
    ensures
        b == white(c),
{
    ('\u{9}' <= c && c <= '\u{d}') || c == ' ' || c == '\u{85}' || c == '\u{a0}' || c == '\u{1680}'
        || ('\u{2000}' <= c && c <= '\u{200a}') || c == '\u{2028}' || c == '\u{2029}' || c
        == '\u{202f}' || c == '\u{205f}' || c == '\u{3000}'
}

/// Splits `text` at white space into its words.
pub fn split_words(text: &str) -> (list: Vec<String>)
    ensures
        texts(list@) == words(text@),
{
    let len: usize = text.unicode_len();
    let mut list: Vec<String> = Vec::new();
    let mut at: usize = 0;
    while at < len
        invariant
            at <= len == text@.len(),
            texts(list@) + words_from(text@, at as int) == words(text@),
        decreases len - at,
    {
        if is_whitespace(text.get_char(at)) {
            at = at + 1;
        } else {
            let mut end: usize = at + 1;
            while end < len && !is_whitespace(text.get_char(end))
                invariant
                    at < end <= len == text@.len(),
                    word_end(text@, at as int) == word_end(text@, end as int),
                decreases len - end,
            {
                end = end + 1;
            }
            let word = String::from_str(text.substring_char(at, end));
            list.push(word);
            at = end;
        }
    }
    list
}

/// `str::to_lowercase` of the standard library: the text in lower case. What
/// that is for a given text is not stated here, only that it depends on the
/// text alone.
#[verifier::external_body]
fn to_lowercase(text: &str) -> (lower: String)
    ensures
        lower@ == lowercase_of(text@),
{
    text.to_lowercase()
}

/// Puts each word into lower case.
pub fn lowercase_words(list: &Vec<String>) -> (lower: Vec<String>)
    ensures
        texts(lower@) == lowered(texts(list@)),
{
    let mut lower: Vec<String> = Vec::new();
    let mut at: usize = 0;
    while at < list.len()
        invariant
            at <= list.len(),
            lower@.len() == at,
            forall|i: int| 0 <= i < at ==> (#[trigger] lower@[i])@ == lowercase_of(list@[i]@),
        decreases list.len() - at,
    {
        let word = to_lowercase(list[at].as_str());
        lower.push(word);
        at = at + 1;
    }
    lower
}

/// Writes the parts of `list` one after the other, with `separator` between
/// each two of them.
pub fn join_words(list: &Vec<String>, separator: &str) -> (joined: String)
    ensures
        joined@ == joined_words(texts(list@), separator@),
{
    let mut joined = String::new();
    let mut at: usize = 0;
    while at < list.len()
        invariant
            at <= list.len(),
            joined@ == joined_words(texts(list@).take(at as int), separator@),
        decreases list.len() - at,
    {
        assert(texts(list@).take(at + 1).drop_last() =~= texts(list@).take(at as int));
        if at > 0 {
            joined.append(separator);
        }
        joined.append(list[at].as_str());
        at = at + 1;
    }
    assert(texts(list@).take(at as int) =~= texts(list@));
    joined
}

/// Writes a hyphen in place of each white-space character of `text`.
pub fn replace_whitespace(text: &str) -> (replaced: String)
    ensures
        replaced@ == hyphenated(text@),
{
    let len: usize = text.unicode_len();
    let mut replaced = String::new();
    let mut at: usize = 0;
    while at < len
        invariant
            at <= len == text@.len(),
            replaced@ == hyphenated(text@.take(at as int)),
        decreases len - at,
    {
        proof {
            reveal_strlit("-");
        }
        if is_whitespace(text.get_char(at)) {
            replaced.append("-");
        } else {
            replaced.append(text.substring_char(at, at + 1));
        }
        at = at + 1;
    }
    replaced
}

/// The part of a dotted name behind its last `.`: `org.foo.BarApp` gives
/// `BarApp`. A name that holds no `.` is returned whole.
pub fn strip_qualification(name: &str) -> (last: &str)
    ensures
        last@ == unqualified(name@),
        last@.is_suffix_of(name@),
        !last@.contains('.'),
        last@.len() < name@.len() ==> name@[name@.len() - last@.len() - 1] == '.',
{
    let len: usize = name.unicode_len();
    let mut at: usize = len;
    while at > 0 && name.get_char(at - 1) != '.'
        invariant
            at <= len == name@.len(),
            suffix_start(name@, at as int) == suffix_start(name@, len as int),
        decreases at,
    {
        at = at - 1;
    }
    proof {
        lemma_suffix_start(name@, len as int);
    }
    name.substring_char(at, len)
}

} // verus!

//! Paths as text: when a path is absolute, how one path is joined to another,
//! and what is left of a path when its last component is taken away.
//!
//! A path is a sequence of characters. Nothing here looks at the file system.

use vstd::prelude::*;

verus! {

/// The dialect in which a path is written.
#[derive(Clone, Copy, Debug, PartialEq, Eq, Structural)]
pub enum Style {
    /// `/` separates components; Linux and macOS.
    Unix,
    /// `\` separates components and `/` is accepted too; Windows.
    Windows,
}

/// Whether `c` separates two components of a path.
pub open spec fn is_separator(style: Style, c: char) -> bool {
    c == '/' || (style == Style::Windows && c == '\\')
}

/// The separator that `join` writes between two components.
pub open spec fn main_separator(style: Style) -> char {
    match style {
        Style::Unix => '/',
        Style::Windows => '\\',
    }
}

/// Whether `c` is one of the letters `a` to `z` or `A` to `Z`.
pub open spec fn is_drive_letter(c: char) -> bool {
    ('a' <= c && c <= 'z') || ('A' <= c && c <= 'Z')
}

/// Whether `path` names a place without reference to a current directory.
///
/// Under `Style::Unix` this is a path that starts with `/`. Under
/// `Style::Windows` it is a path that starts with a drive letter, a colon and
/// a separator (`C:\`), or with two separators (`\\server\share`).
pub open spec fn absolute(style: Style, path: Seq<char>) -> bool {
    match style {
        Style::Unix => path.len() >= 1 && path[0] == '/',
        Style::Windows => {
            ||| (path.len() >= 3 && is_drive_letter(path[0]) && path[1] == ':' && is_separator(
                style,
                path[2],
            ))
            ||| (path.len() >= 2 && is_separator(style, path[0]) && is_separator(style, path[1]))
        },
    }
}

/// `rel` below `base`: `rel` written behind `base`, after a separator unless
/// `base` is empty or ends in one already. `rel` is always taken as a path
/// below `base`, also where it starts with a separator or looks absolute, so
/// `base` is a prefix of the result.
pub open spec fn joined(style: Style, base: Seq<char>, rel: Seq<char>) -> Seq<char> {
    if base.len() == 0 || is_separator(style, base.last()) {
        base + rel
    } else {
        base.push(main_separator(style)) + rel
    }
}

/// A path that may be absent, kept only if it is absolute.
pub open spec fn absolute_only(style: Style, path: Option<String>) -> Option<Seq<char>> {
    match path {
        Some(path) => if absolute(style, path@) {
            Some(path@)
        } else {
            None
        },
        None => None,
    }
}

/// How many leading characters of a Unix path belong to no component that can
/// be taken away: the root `/`, or a `.` that stands for the current
/// directory at the very start.
pub open spec fn anchor_len(path: Seq<char>) -> int {
    if path.len() >= 1 && path[0] == '/' {
        1
    } else if path.len() >= 1 && path[0] == '.' && (path.len() == 1 || path[1] == '/') {
        1
    } else {
        0
    }
}

/// Where the last component of `path[anchor..end]` starts: behind the last
/// `/` at or after `anchor`, or at `anchor` if there is none.
pub open spec fn component_start(path: Seq<char>, anchor: int, end: int) -> int
    recommends
        0 <= anchor,
        end <= path.len(),
    decreases end - anchor,
{
    if end <= anchor {
        anchor
    } else if path[end - 1] == '/' {
        end
    } else {
        component_start(path, anchor, end - 1)
    }
}

/// Whether `path[start..end]` is a component that names nothing: the empty
/// one between two separators, or `.`.
pub open spec fn is_idle(path: Seq<char>, start: int, end: int) -> bool
    recommends
        0 <= start,
        end <= path.len(),
{
    end == start || (end == start + 1 && path[start] == '.')
}

/// Where `path[..end]` ends once the components behind `anchor` that name
/// nothing, and the separators before them, are cut from its end.
pub open spec fn trimmed_end(path: Seq<char>, anchor: int, end: int) -> int
    recommends
        0 <= anchor,
        end <= path.len(),
    decreases end - anchor,
    via trimmed_end_terminates
{
    if end <= anchor {
        end
    } else {
        let start = component_start(path, anchor, end);
        if is_idle(path, start, end) {
            trimmed_end(path, anchor, before(anchor, start))
        } else {
            end
        }
    }
}

#[via_fn]
proof fn trimmed_end_terminates(path: Seq<char>, anchor: int, end: int) {
    if end > anchor {
        lemma_component_start_bounds(path, anchor, end);
    }
}

/// Where the text in front of a component ends, given where the component
/// starts: in front of the separator that precedes it, if there is one behind
/// `anchor`.
pub open spec fn before(anchor: int, start: int) -> int {
    if start > anchor {
        start - 1
    } else {
        anchor
    }
}

/// A Unix path without its last component.
///
/// Components that name nothing (empty ones and `.`) are passed over, so the
/// last component of `/a/b/./` is `b` and what is left is `/a`. A path that
/// is only a root, or empty, has no last component and is left as it is; a
/// path that is only `.` leaves the empty path.
pub open spec fn popped(path: Seq<char>) -> Seq<char> {
    let anchor = anchor_len(path);
    let end = trimmed_end(path, anchor, path.len() as int);
    if end > anchor {
        let start = component_start(path, anchor, end);
        path.take(trimmed_end(path, anchor, before(anchor, start)))
    } else if anchor == 1 && path[0] == '.' {
        Seq::empty()
    } else {
        path
    }
}

/// Extending an absolute path keeps it absolute.
pub proof fn lemma_absolute_extends(style: Style, path: Seq<char>, more: Seq<char>)
    requires
        absolute(style, path),
    ensures
        absolute(style, path + more),
{
}

/// What is joined to an absolute base is absolute.
pub proof fn lemma_joined_absolute(style: Style, base: Seq<char>, rel: Seq<char>)
    requires
        absolute(style, base),
    ensures
        absolute(style, joined(style, base, rel)),
{
    if base.len() == 0 || is_separator(style, base.last()) {
        lemma_absolute_extends(style, base, rel);
    } else {
        lemma_absolute_extends(style, base, seq![main_separator(style)] + rel);
    }
}

/// What is joined to a base lies below it: the base is a prefix of it.
pub proof fn lemma_joined_below(style: Style, base: Seq<char>, rel: Seq<char>)
    ensures
        base.is_prefix_of(joined(style, base, rel)),
{
}

/// `component_start` stays between the anchor and the end.
pub proof fn lemma_component_start_bounds(path: Seq<char>, anchor: int, end: int)
    requires
        anchor <= end,
    ensures
        anchor <= component_start(path, anchor, end) <= end,
    decreases end - anchor,
{
    if end > anchor && path[end - 1] != '/' {
        lemma_component_start_bounds(path, anchor, end - 1);
    }
}

/// `trimmed_end` cuts from the end only, and never into the anchor.
pub proof fn lemma_trimmed_end_bounds(path: Seq<char>, anchor: int, end: int)
    requires
        anchor <= end,
    ensures
        anchor <= trimmed_end(path, anchor, end) <= end,
    decreases end - anchor,
{
    if end > anchor {
        let start = component_start(path, anchor, end);
        lemma_component_start_bounds(path, anchor, end);
        if is_idle(path, start, end) {
            lemma_trimmed_end_bounds(path, anchor, before(anchor, start));
        }
    }
}

/// What `popped` leaves is a prefix of the path, and absolute if the path was.
pub proof fn lemma_popped_prefix(path: Seq<char>)
    ensures
        popped(path).is_prefix_of(path),
        absolute(Style::Unix, path) ==> absolute(Style::Unix, popped(path)),
{
    let anchor = anchor_len(path);
    lemma_trimmed_end_bounds(path, anchor, path.len() as int);
    let end = trimmed_end(path, anchor, path.len() as int);
    if end > anchor {
        let start = component_start(path, anchor, end);
        lemma_component_start_bounds(path, anchor, end);
        lemma_trimmed_end_bounds(path, anchor, before(anchor, start));
    }
}

/// Whether `name` can be one component of a Unix path that names something:
/// it is not empty, holds no `/` and is not `.`.
pub open spec fn is_name(name: Seq<char>) -> bool {
    &&& name.len() > 0
    &&& forall|i: int| 0 <= i < name.len() ==> name[i] != '/'
    &&& !(name.len() == 1 && name[0] == '.')
}

/// A component starts where the text without `/` before `end` starts, if a
/// `/` or the anchor stands right before that text.
pub proof fn lemma_component_start_found(path: Seq<char>, anchor: int, start: int, end: int)
    requires
        0 <= anchor <= start <= end <= path.len(),
        forall|i: int| start <= i < end ==> path[i] != '/',
        start == anchor || path[start - 1] == '/',
    ensures
        component_start(path, anchor, end) == start,
    decreases end - start,
{
    if end > start {
        lemma_component_start_found(path, anchor, start, end - 1);
    }
}

/// Taking the last component off `first/second` below a base leaves `first`
/// below that base.
pub proof fn lemma_popped_joined(base: Seq<char>, first: Seq<char>, second: Seq<char>)
    requires
        is_name(first),
        is_name(second),
    ensures
        popped(joined(Style::Unix, base, first.push('/') + second)) == joined(
            Style::Unix,
            base,
            first,
        ),
{
    let rel = first.push('/') + second;
    let path = joined(Style::Unix, base, rel);
    let kept = joined(Style::Unix, base, first);
    let anchor: int = anchor_len(path);
    let len: int = path.len() as int;
    let kept_len: int = kept.len() as int;
    let from: int = kept_len - first.len();
    // `path` is `kept`, a `/` and `second`; `kept` ends in `first`, which
    // starts the path or follows a `/`.
    assert(kept.is_prefix_of(path) && path[kept_len] == '/');
    assert(from == 0 || path[from - 1] == '/');
    assert(anchor <= from);
    let last: int = kept_len + 1;
    lemma_component_start_found(path, anchor, last, len);
    assert(trimmed_end(path, anchor, len) == len);
    lemma_component_start_found(path, anchor, from, kept_len);
    assert(trimmed_end(path, anchor, kept_len) == kept_len);
}

/// Whether `c` separates two components of a path.
pub fn is_separator_char(style: Style, c: char) -> (b: bool)
    ensures
        b == is_separator(style, c),
{
    c == '/' || (style == Style::Windows && c == '\\')
}

/// Whether `path` is absolute in the given style.
pub fn is_absolute(style: Style, path: &str) -> (b: bool)
    ensures
        b == absolute(style, path@),
{
    let len: usize = path.unicode_len();
    match style {
        Style::Unix => len >= 1 && path.get_char(0) == '/',
        Style::Windows => {
            if len >= 2 {
                let first: char = path.get_char(0);
                let second: char = path.get_char(1);
                if is_separator_char(style, first) && is_separator_char(style, second) {
                    true
                } else if len >= 3 {
                    let third: char = path.get_char(2);
                    (('a' <= first && first <= 'z') || ('A' <= first && first <= 'Z')) && second
                        == ':' && is_separator_char(style, third)
                } else {
                    false
                }
            } else {
                false
            }
        },
    }
}

/// Keeps a path only if it is there and absolute.
pub fn keep_absolute(style: Style, path: &Option<String>) -> (kept: Option<String>)
    ensures
        crate::text::text_of(kept) == absolute_only(style, *path),
{
    match path {
        Some(path) => if is_absolute(style, path.as_str()) {
            Some(path.clone())
        } else {
            None
        },
        None => None,
    }
}

/// Writes `rel` below `base`.
pub fn join(style: Style, base: &str, rel: &str) -> (path: String)
    ensures
        path@ == joined(style, base@, rel@),
{
    let len: usize = base.unicode_len();
    let mut path = String::from_str(base);
    if len > 0 && !is_separator_char(style, base.get_char(len - 1)) {
        proof {
            reveal_strlit("/");
            reveal_strlit("\\");
        }
        match style {
            Style::Unix => path.append("/"),
            Style::Windows => path.append("\\"),
        }
    }
    path.append(rel);
    path
}

/// Where the last component of the first `end` characters of `path` starts.
fn last_component_start(path: &str, anchor: usize, end: usize) -> (start: usize)
    requires
        anchor <= end <= path@.len(),
    ensures
        start == component_start(path@, anchor as int, end as int),
        anchor <= start <= end,
{
    let mut at: usize = end;
    while at > anchor && path.get_char(at - 1) != '/'
        invariant
            anchor <= at <= end <= path@.len(),
            component_start(path@, anchor as int, at as int) == component_start(
                path@,
                anchor as int,
                end as int,
            ),
        decreases at,
    {
        at = at - 1;
    }
    at
}

/// Where the first `end` characters of `path` end once trailing components
/// that name nothing are cut.
fn trim_end(path: &str, anchor: usize, end: usize) -> (cut: usize)
    requires
        anchor <= end <= path@.len(),
    ensures
        cut == trimmed_end(path@, anchor as int, end as int),
        anchor <= cut <= end,
{
    let mut at: usize = end;
    while at > anchor
        invariant
            anchor <= at <= end <= path@.len(),
            trimmed_end(path@, anchor as int, at as int) == trimmed_end(
                path@,
                anchor as int,
                end as int,
            ),
        decreases at,
    {
        let start: usize = last_component_start(path, anchor, at);
        let idle: bool = at == start || (at == start + 1 && path.get_char(start) == '.');
        if !idle {
            return at;
        }
        at = if start > anchor {
            start - 1
        } else {
            anchor
        };
    }
    at
}

/// Takes the last component off a Unix path.
pub fn pop(path: &str) -> (rest: String)
    ensures
        rest@ == popped(path@),
{
    let len: usize = path.unicode_len();
    let anchor: usize = if len >= 1 && path.get_char(0) == '/' {
        1
    } else if len >= 1 && path.get_char(0) == '.' && (len == 1 || path.get_char(1) == '/') {
        1
    } else {
        0
    };
    let end: usize = trim_end(path, anchor, len);
    if end > anchor {
        let start: usize = last_component_start(path, anchor, end);
        let cut: usize = trim_end(
            path,
            anchor,
            if start > anchor {
                start - 1
            } else {
                anchor
            },
        );
        String::from_str(path.substring_char(0, cut))
    } else if anchor == 1 && path.get_char(0) == '.' {
        String::new()
    } else {
        String::from_str(path)
    }
}

} // verus!

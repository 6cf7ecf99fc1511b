//! Helpers that place and find files below a directory.

use crate::path::{join, joined, Style};
use crate::text::texts;
use vstd::prelude::*;

verus! {

/// The `index`-th place where a file is looked for: below `home` first, then
/// below each of `dirs` in turn.
pub open spec fn candidate(
    style: Style,
    home: Seq<char>,
    dirs: Seq<Seq<char>>,
    path: Seq<char>,
    index: int,
) -> Seq<char> {
    if index == 0 {
        joined(style, home, path)
    } else {
        joined(style, dirs[index - 1], path)
    }
}

/// Whether `probe`, asked for `place`, can give `answer`.
pub open spec fn answers<F: Fn(&str) -> bool>(probe: F, place: Seq<char>, answer: bool) -> bool {
    exists|at: &str| at@ == place && #[trigger] probe.ensures((at,), answer)
}

/// Looks for `path` below `home` and then below each of `dirs`, in order, and
/// returns the first place at which `present` finds something.
pub fn read_file<F: Fn(&str) -> bool>(
    style: Style,
    home: &str,
    dirs: &Vec<String>,
    path: &str,
    present: F,
) -> (found: Option<String>)
    requires
        forall|place: &str| #[trigger] present.requires((place,)),
    ensures
        match found {
            Some(place) => exists|index: int|
                {
                    &&& 0 <= index <= dirs@.len()
                    &&& place@ == #[trigger] candidate(style, home@, texts(dirs@), path@, index)
                    &&& answers(present, place@, true)
                    &&& forall|earlier: int|
                        0 <= earlier < index ==> answers(
                            present,
                            #[trigger] candidate(style, home@, texts(dirs@), path@, earlier),
                            false,
                        )
                },
            None => forall|index: int|
                0 <= index <= dirs@.len() ==> answers(
                    present,
                    #[trigger] candidate(style, home@, texts(dirs@), path@, index),
                    false,
                ),
        },
{
    let full_path = join(style, home, path);
    if present(full_path.as_str()) {
        assert(full_path@ == candidate(style, home@, texts(dirs@), path@, 0));
        return Some(full_path);
    }
    let mut at: usize = 0;
    while at < dirs.len()
        invariant
            at <= dirs.len(),
            forall|place: &str| #[trigger] present.requires((place,)),
            forall|earlier: int|
                0 <= earlier <= at ==> answers(
                    present,
                    #[trigger] candidate(style, home@, texts(dirs@), path@, earlier),
                    false,
                ),
        decreases dirs.len() - at,
    {
        let full_path = join(style, dirs[at].as_str(), path);
        assert(full_path@ == candidate(style, home@, texts(dirs@), path@, at + 1));
        if present(full_path.as_str()) {
            return Some(full_path);
        }
        at = at + 1;
    }
    None
}

} // verus!

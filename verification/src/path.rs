//! Host paths with `/` between their components.
//!
//! Repeated separators, `.` components, and a trailing separator carry no
//! meaning; a leading `.` of a relative path does.

use vstd::prelude::*;

use crate::text::{same_text, same_texts, split_at_first, split_once, string_views};

verus! {

/// The pieces of a text between the occurrences of a separator.
pub open spec fn pieces(s: Seq<char>, c: char) -> Seq<Seq<char>>
    decreases s.len(),
    via pieces_decreases
{
    match split_at_first(s, c) {
        None => seq![s],
        Some((head, tail)) => seq![head] + pieces(tail, c),
    }
}

#[via_fn]
proof fn pieces_decreases(s: Seq<char>, c: char) {
    s.index_of_first_ensures(c);
}

/// The pieces that name something.
pub open spec fn named(list: Seq<Seq<char>>) -> Seq<Seq<char>>
    decreases list.len(),
{
    if list.len() == 0 {
        Seq::empty()
    } else if list.last().len() == 0 || list.last() == "."@ {
        named(list.drop_last())
    } else {
        named(list.drop_last()).push(list.last())
    }
}

/// A path: whether it starts at the root, whether it starts at the explicit
/// current directory, and the names along it.
pub struct PathParts {
    pub absolute: bool,
    pub current: bool,
    pub names: Seq<Seq<char>>,
}

/// The meaning of a path text.
pub open spec fn path_parts(s: Seq<char>) -> PathParts {
    let list = pieces(s, '/');
    PathParts {
        absolute: s.len() > 0 && s[0] == '/',
        current: list[0] == "."@,
        names: named(list),
    }
}

/// The path without its last component, where it has one.
pub open spec fn path_parent(s: Seq<char>) -> Option<PathParts> {
    let parts = path_parts(s);
    if parts.names.len() > 0 {
        Some(PathParts { names: parts.names.drop_last(), ..parts })
    } else if parts.current {
        Some(PathParts { current: false, ..parts })
    } else {
        None
    }
}

/// One path lies at or below another.
pub open spec fn path_within(path: PathParts, root: PathParts) -> bool {
    &&& path.absolute == root.absolute
    &&& path.current == root.current
    &&& root.names.len() <= path.names.len()
    &&& path.names.take(root.names.len() as int) == root.names
}

/// A path taken apart.
pub struct ParsedPath {
    pub absolute: bool,
    pub current: bool,
    pub names: Vec<String>,
}

impl View for ParsedPath {
    type V = PathParts;

    open spec fn view(&self) -> PathParts {
        PathParts {
            absolute: self.absolute,
            current: self.current,
            names: string_views(self.names@),
        }
    }
}

/// Splits a text at every occurrence of a separator.
pub fn split_pieces(s: &str, c: char) -> (out: Vec<String>)
    ensures
        string_views(out@) == pieces(s@, c),
        out@.len() > 0,
{
    let mut out: Vec<String> = Vec::new();
    let mut rest = s.to_owned();
    assert(string_views(out@) + pieces(rest@, c) =~= pieces(s@, c));
    loop
        invariant
            string_views(out@) + pieces(rest@, c) == pieces(s@, c),
        decreases rest@.len(),
    {
        let ghost before = string_views(out@);
        proof {
            rest@.index_of_first_ensures(c);
        }
        match split_once(rest.as_str(), c) {
            None => {
                out.push(rest);
                assert(string_views(out@) =~= pieces(s@, c));
                return out;
            },
            Some((head, tail)) => {
                proof {
                    assert(before + (seq![head@] + pieces(tail@, c)) =~= before.push(head@)
                        + pieces(tail@, c));
                }
                let ghost h = head@;
                out.push(head);
                assert(string_views(out@) =~= before.push(h));
                rest = tail;
            },
        }
    }
}

fn select_named(list: &Vec<String>) -> (out: Vec<String>)
    ensures
        string_views(out@) == named(string_views(list@)),
{
    let ghost all = string_views(list@);
    let mut out: Vec<String> = Vec::new();
    let mut i: usize = 0;
    assert(string_views(out@) =~= named(all.take(0)));
    while i < list.len()
        invariant
            i <= list@.len(),
            all == string_views(list@),
            string_views(out@) == named(all.take(i as int)),
        decreases list@.len() - i,
    {
        proof {
            assert(all.take(i + 1).drop_last() =~= all.take(i as int));
            assert(all.take(i + 1).last() == list@[i as int]@);
        }
        let piece = list[i].as_str();
        if !(piece.is_empty() || same_text(piece, ".")) {
            let ghost before = string_views(out@);
            let copy = piece.to_owned();
            out.push(copy);
            assert(string_views(out@) =~= before.push(list@[i as int]@));
        }
        i += 1;
    }
    assert(all.take(i as int) =~= all);
    out
}

/// Takes a path apart.
pub fn parse_path(s: &str) -> (r: ParsedPath)
    ensures
        r@ == path_parts(s@),
{
    let list = split_pieces(s, '/');
    assert(string_views(list@)[0] == list@[0]@);
    let absolute = crate::text::starts_with(s, "/");
    proof {
        reveal_strlit("/");
        if s@.len() > 0 {
            assert(s@.take(1) =~= seq![s@[0]]);
            assert("/"@ =~= seq!['/']);
            if s@.take(1) == "/"@ {
                assert(s@.take(1)[0] == '/');
            }
        }
    }
    ParsedPath {
        absolute,
        current: same_text(list[0].as_str(), "."),
        names: select_named(&list),
    }
}

/// The parent of a path, where it has one.
pub fn parse_parent(s: &str) -> (r: Option<ParsedPath>)
    ensures
        match r {
            Some(parent) => path_parent(s@) == Some(parent@),
            None => path_parent(s@) is None,
        },
{
    let mut parsed = parse_path(s);
    if parsed.names.len() > 0 {
        let ghost before = parsed.names@;
        let last = parsed.names.pop();
        assert(string_views(parsed.names@) =~= string_views(before).drop_last());
        Some(parsed)
    } else if parsed.current {
        Some(ParsedPath { absolute: parsed.absolute, current: false, names: parsed.names })
    } else {
        None
    }
}

/// Whether two paths are the same.
pub fn same_path(a: &ParsedPath, b: &ParsedPath) -> (same: bool)
    ensures
        same == (a@ == b@),
{
    a.absolute == b.absolute && a.current == b.current && same_texts(&a.names, &b.names)
}

/// Whether a path lies at or below another.
pub fn lies_within(path: &ParsedPath, root: &ParsedPath) -> (b: bool)
    ensures
        b == path_within(path@, root@),
{
    path.absolute == root.absolute && path.current == root.current
        && crate::text::list_starts_with(&path.names, &root.names)
}

} // verus!

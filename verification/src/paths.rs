//! The path-traversal guard for names stored in an archive.
//!
//! A stored name is split into components at `/` and `\`. Walking the
//! components from the extraction root, `..` steps one directory up, empty
//! components and `.` stay in place, every other component steps down. A name
//! is accepted only if it is relative and the walk never leaves the root.

use vstd::prelude::*;
use crate::text::{is_separator, char_is_separator, join_spec, slash};

verus! {

/// The components of `name`: the runs of characters between separators.
/// There is always at least one, and it may be empty.
pub open spec fn components(name: Seq<char>) -> Seq<Seq<char>>
    decreases name.len(),
{
    if name.len() == 0 {
        seq![Seq::<char>::empty()]
    } else {
        let before = components(name.drop_last());
        if is_separator(name.last()) {
            before.push(Seq::<char>::empty())
        } else {
            before.drop_last().push(before.last().push(name.last()))
        }
    }
}

/// The component `..`.
pub open spec fn is_parent(c: Seq<char>) -> bool {
    c.len() == 2 && c[0] == '.' && c[1] == '.'
}

/// A component that names no directory: the empty one and `.`.
pub open spec fn is_inert(c: Seq<char>) -> bool {
    c.len() == 0 || (c.len() == 1 && c[0] == '.')
}

/// One step of the walk: the directory stack after `c`, or `None` where `c`
/// would step above the root.
pub open spec fn step_into(stack: Seq<Seq<char>>, c: Seq<char>) -> Option<Seq<Seq<char>>> {
    if is_parent(c) {
        if stack.len() == 0 {
            None
        } else {
            Some(stack.drop_last())
        }
    } else if is_inert(c) {
        Some(stack)
    } else {
        Some(stack.push(c))
    }
}

/// The directory stack reached from `start` by walking `comps`, or `None` if
/// some step leaves `start`'s root.
pub open spec fn resolve_from(start: Seq<Seq<char>>, comps: Seq<Seq<char>>) -> Option<
    Seq<Seq<char>>,
>
    decreases comps.len(),
{
    if comps.len() == 0 {
        Some(start)
    } else {
        match resolve_from(start, comps.drop_last()) {
            None => None,
            Some(stack) => step_into(stack, comps.last()),
        }
    }
}

/// The walk from the empty stack.
pub open spec fn resolve(comps: Seq<Seq<char>>) -> Option<Seq<Seq<char>>> {
    resolve_from(Seq::empty(), comps)
}

/// A name that starts at the file system's root.
pub open spec fn is_rooted(name: Seq<char>) -> bool {
    name.len() > 0 && is_separator(name[0])
}

/// An ASCII letter, as it may name a drive.
pub open spec fn is_drive_letter(c: char) -> bool {
    ('a' <= c && c <= 'z') || ('A' <= c && c <= 'Z')
}

/// A name that starts with a drive prefix such as `C:`.
pub open spec fn has_drive_prefix(name: Seq<char>) -> bool {
    name.len() >= 2 && is_drive_letter(name[0]) && name[1] == ':'
}

/// The guard: `name` is relative and its walk never leaves the root.
pub open spec fn stays_inside(name: Seq<char>) -> bool {
    &&& !is_rooted(name)
    &&& !has_drive_prefix(name)
    &&& resolve(components(name)) is Some
}

/// Executable form of [`is_drive_letter`].
pub fn char_is_drive_letter(c: char) -> (r: bool)
    ensures
        r == is_drive_letter(c),
{
    ('a' <= c && c <= 'z') || ('A' <= c && c <= 'Z')
}

proof fn lemma_components_nonempty(name: Seq<char>)
    ensures
        components(name).len() >= 1,
    decreases name.len(),
{
    if name.len() > 0 {
        lemma_components_nonempty(name.drop_last());
    }
}

/// Whether every character of `c` is a dot.
pub open spec fn all_dots(c: Seq<char>) -> bool {
    forall|j: int| 0 <= j < c.len() ==> c[j] == '.'
}

/// Decides the guard in one pass over the name.
pub fn entry_stays_inside(name: &str) -> (r: bool)
    ensures
        r == stays_inside(name@),
{
    let total = name.unicode_len();
    let mut pos: usize = 0;
    let mut rooted = false;
    let mut drive = false;
    let mut first_is_letter = false;
    let mut escaped = false;
    let mut depth: usize = 0;
    let mut cur_len: usize = 0;
    let mut cur_dots = true;
    for c in it: name.chars()
        invariant
            it.seq() == name@,
            name@.len() == total,
            pos == it.index(),
            components(name@.take(pos as int)).len() >= 1,
            cur_len == components(name@.take(pos as int)).last().len(),
            cur_len <= pos,
            cur_dots == all_dots(components(name@.take(pos as int)).last()),
            escaped == (resolve(components(name@.take(pos as int)).drop_last()) is None),
            !escaped ==> depth == resolve(
                components(name@.take(pos as int)).drop_last(),
            ).unwrap().len(),
            depth <= pos,
            rooted == (pos > 0 && is_separator(name@[0])),
            first_is_letter == (pos > 0 && is_drive_letter(name@[0])),
            drive == (pos > 1 && is_drive_letter(name@[0]) && name@[1] == ':'),
    {
        let ghost i = pos as int;
        let ghost before = components(name@.take(i));
        proof {
            assert(name@.take(i + 1).drop_last() =~= name@.take(i));
            assert(name@.take(i + 1).last() == c);
            lemma_components_nonempty(name@.take(i + 1));
        }
        let sep = char_is_separator(c);
        if pos == 0 {
            rooted = sep;
            first_is_letter = char_is_drive_letter(c);
        } else if pos == 1 {
            drive = first_is_letter && c == ':';
        }
        if sep {
            proof {
                assert(components(name@.take(i + 1)) == before.push(Seq::<char>::empty()));
                assert(before.push(Seq::<char>::empty()).drop_last() =~= before);
                assert(before.drop_last().push(before.last()) =~= before);
            }
            if !escaped {
                let parent = cur_len == 2 && cur_dots;
                let inert = cur_len == 0 || (cur_len == 1 && cur_dots);
                if parent {
                    if depth == 0 {
                        escaped = true;
                    } else {
                        depth = depth - 1;
                    }
                } else if !inert {
                    depth = depth + 1;
                }
            }
            cur_len = 0;
            cur_dots = true;
        } else {
            proof {
                let grown = before.drop_last().push(before.last().push(c));
                assert(components(name@.take(i + 1)) == grown);
                assert(grown.drop_last() =~= before.drop_last());
                assert(grown.last() == before.last().push(c));
                let cur = before.last();
                assert(all_dots(cur.push(c)) == (all_dots(cur) && c == '.')) by {
                    if all_dots(cur.push(c)) {
                        assert(cur.push(c)[cur.len() as int] == c);
                        assert forall|j: int| 0 <= j < cur.len() implies cur[j] == '.' by {
                            assert(cur.push(c)[j] == cur[j]);
                        }
                    }
                }
            }
            cur_len = cur_len + 1;
            cur_dots = cur_dots && c == '.';
        }
        pos = pos + 1;
    }
    proof {
        assert(name@.take(name@.len() as int) =~= name@);
        let comps = components(name@);
        assert(comps.drop_last().push(comps.last()) =~= comps);
    }
    let parent = cur_len == 2 && cur_dots;
    !rooted && !drive && !escaped && !(parent && depth == 0)
}

/// Walking `first` and then `second` is walking the two in a row.
pub proof fn lemma_resolve_in_two_parts(
    start: Seq<Seq<char>>,
    first: Seq<Seq<char>>,
    second: Seq<Seq<char>>,
)
    ensures
        resolve_from(start, first + second) == match resolve_from(start, first) {
            None => None,
            Some(mid) => resolve_from(mid, second),
        },
    decreases second.len(),
{
    if second.len() == 0 {
        assert(first + second =~= first);
    } else {
        lemma_resolve_in_two_parts(start, first, second.drop_last());
        assert((first + second).drop_last() =~= first + second.drop_last());
        assert((first + second).last() == second.last());
    }
}

/// A walk that stays inside the empty root stays below any directory it is
/// started from, and ends there at the same relative place.
pub proof fn lemma_resolve_below_start(start: Seq<Seq<char>>, comps: Seq<Seq<char>>)
    requires
        resolve(comps) is Some,
    ensures
        resolve_from(start, comps) == Some(start + resolve(comps).unwrap()),
    decreases comps.len(),
{
    if comps.len() == 0 {
        assert(start + Seq::<Seq<char>>::empty() =~= start);
    } else {
        lemma_resolve_below_start(start, comps.drop_last());
        let inner = resolve(comps.drop_last()).unwrap();
        let c = comps.last();
        if is_parent(c) {
            assert((start + inner).drop_last() =~= start + inner.drop_last());
        } else if is_inert(c) {
        } else {
            assert((start + inner).push(c) =~= start + inner.push(c));
        }
    }
}

/// Behind a separator the components of a text start afresh.
pub proof fn lemma_components_after_separator(head: Seq<char>, tail: Seq<char>)
    requires
        head.len() > 0,
        is_separator(head.last()),
    ensures
        components(head + tail) == components(head).drop_last() + components(tail),
    decreases tail.len(),
{
    lemma_components_nonempty(head.drop_last());
    let kept = components(head).drop_last();
    assert(kept =~= components(head.drop_last()));
    if tail.len() == 0 {
        assert(head + tail =~= head);
        assert(kept + components(tail) =~= components(head));
    } else {
        lemma_components_after_separator(head, tail.drop_last());
        lemma_components_nonempty(tail.drop_last());
        assert((head + tail).drop_last() =~= head + tail.drop_last());
        assert((head + tail).last() == tail.last());
        let inner = components(tail.drop_last());
        let whole = kept + inner;
        if is_separator(tail.last()) {
            assert(whole.push(Seq::<char>::empty()) =~= kept + inner.push(Seq::<char>::empty()));
        } else {
            let c = tail.last();
            assert(whole.last() == inner.last());
            assert(whole.drop_last() =~= kept + inner.drop_last());
            assert(whole.drop_last().push(whole.last().push(c)) =~= kept + inner.drop_last().push(
                inner.last().push(c),
            ));
        }
    }
}

/// The components of a joined path are those of the directory followed by
/// those of the relative path, up to inert components.
pub proof fn lemma_resolve_joined(start: Seq<Seq<char>>, base: Seq<char>, rel: Seq<char>)
    ensures
        resolve_from(start, components(join_spec(base, rel))) == match resolve_from(
            start,
            components(base),
        ) {
            None => None,
            Some(at) => resolve_from(at, components(rel)),
        },
{
    lemma_components_nonempty(base);
    lemma_components_nonempty(rel);
    let empty = Seq::<char>::empty();
    if base.len() == 0 {
        assert(components(base) =~= seq![empty]);
        assert(components(base).drop_last() =~= Seq::<Seq<char>>::empty());
        assert(is_inert(empty));
    } else if is_separator(base.last()) {
        lemma_components_after_separator(base, rel);
        lemma_resolve_in_two_parts(start, components(base).drop_last(), components(rel));
        assert(components(base).last() =~= empty) by {
            lemma_components_nonempty(base.drop_last());
        }
        assert(is_inert(components(base).last()));
    } else {
        let head = base + slash();
        assert(head.drop_last() =~= base);
        assert(head.last() == '/');
        assert(components(head) == components(base).push(empty));
        assert(components(head).drop_last() =~= components(base));
        lemma_components_after_separator(head, rel);
        lemma_resolve_in_two_parts(start, components(base), components(rel));
    }
}

/// A guarded name joined to a directory never leads out of that directory:
/// wherever the directory lies, the joined path resolves to the directory's
/// own place followed by the place of the name inside it.
pub proof fn lemma_guarded_name_stays_under(
    start: Seq<Seq<char>>,
    dir: Seq<char>,
    name: Seq<char>,
)
    requires
        stays_inside(name),
        resolve_from(start, components(dir)) is Some,
    ensures
        resolve_from(start, components(join_spec(dir, name))) == Some(
            resolve_from(start, components(dir)).unwrap() + resolve(components(name)).unwrap(),
        ),
{
    lemma_resolve_joined(start, dir, name);
    lemma_resolve_below_start(resolve_from(start, components(dir)).unwrap(), components(name));
}

} // verus!

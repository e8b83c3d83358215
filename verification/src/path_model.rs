//! Mathematical model of the path conventions the library follows.
//!
//! Paths are modelled as sequences of characters with `/` as the
//! separator.  The model fixes what it means to join two paths, to end
//! in the conventional configuration segment, to lie under a container
//! directory, and how the duplicate-free accumulator grows.

use vstd::prelude::*;

verus! {

/// The conventional configuration subdirectory segment.
pub open spec fn config_seg() -> Seq<char> {
    ".config"@
}

/// The final path component of `p` is exactly `seg`.
pub open spec fn ends_with_segment(p: Seq<char>, seg: Seq<char>) -> bool {
    p == seg || (p.len() > seg.len() && p[p.len() - seg.len() - 1] == '/' && p.subrange(
        p.len() - seg.len(),
        p.len() as int,
    ) == seg)
}

/// `p` is an absolute path.
pub open spec fn is_absolute(p: Seq<char>) -> bool {
    p.len() > 0 && p[0] == '/'
}

/// The path naming `rel` underneath the directory `dir`.
///
/// An empty `dir` leaves `rel` as it is, and an absolute `rel`
/// replaces `dir`; otherwise the two are joined with a single
/// separator.
pub open spec fn join_path(dir: Seq<char>, rel: Seq<char>) -> Seq<char> {
    if dir.len() == 0 || is_absolute(rel) {
        rel
    } else if dir[dir.len() - 1] == '/' {
        dir + rel
    } else {
        dir + seq!['/'] + rel
    }
}

/// `p` with the conventional segment appended, unless it already ends
/// with that segment.
pub open spec fn with_config_seg(p: Seq<char>) -> Seq<char> {
    if ends_with_segment(p, config_seg()) {
        p
    } else {
        join_path(p, config_seg())
    }
}

/// The value the accumulator stores for an added path: the path
/// itself, or its form with the conventional segment appended.
pub open spec fn stored_path(p: Seq<char>, add_seg: bool) -> Seq<char> {
    if add_seg {
        with_config_seg(p)
    } else {
        p
    }
}

/// Duplicate-free insertion at the back: a value already present
/// leaves the sequence unchanged.
pub open spec fn insert_path(paths: Seq<Seq<char>>, v: Seq<char>) -> Seq<Seq<char>> {
    if paths.contains(v) {
        paths
    } else {
        paths.push(v)
    }
}

/// No two entries of `paths` are equal.
pub open spec fn no_duplicates(paths: Seq<Seq<char>>) -> bool {
    forall|i: int, j: int| 0 <= i < j < paths.len() ==> paths[i] != paths[j]
}

/// `container` is a path-prefix of `p`: it names `p` itself or one of
/// its ancestor directories.
pub open spec fn is_path_prefix(p: Seq<char>, container: Seq<char>) -> bool {
    container.len() == 0 || p == container || (container == seq!['/'] && is_absolute(p)) || (
    p.len() > container.len() && p.subrange(0, container.len() as int) == container && p[
        container.len() as int] == '/')
}

/// The index of the last separator of `p`, or `-1` if `p` has none.
pub open spec fn last_sep(p: Seq<char>) -> int
    decreases p.len(),
{
    if p.len() == 0 {
        -1
    } else if p[p.len() - 1] == '/' {
        p.len() - 1
    } else {
        last_sep(p.drop_last())
    }
}

/// The directory holding `p`: everything before `p`'s last separator,
/// the root for a top-level absolute path, the empty path for a bare
/// relative name, and nothing at all for the root or the empty path.
pub open spec fn parent_path(p: Seq<char>) -> Option<Seq<char>> {
    if p.len() == 0 || p == seq!['/'] {
        None
    } else {
        let i = last_sep(p);
        if i == -1 {
            Some(Seq::empty())
        } else if i == 0 {
            Some(seq!['/'])
        } else {
            Some(p.subrange(0, i))
        }
    }
}

/// Position and character of the last separator, stated for proofs.
pub proof fn lemma_last_sep(p: Seq<char>)
    ensures
        -1 <= last_sep(p) < p.len(),
        last_sep(p) >= 0 ==> p[last_sep(p)] == '/',
        forall|j: int| last_sep(p) < j < p.len() ==> p[j] != '/',
    decreases p.len(),
{
    if p.len() == 0 {
    } else if p[p.len() - 1] == '/' {
    } else {
        lemma_last_sep(p.drop_last());
        assert forall|j: int| last_sep(p) < j < p.len() implies p[j] != '/' by {
            if j < p.len() - 1 {
                assert(p.drop_last()[j] != '/');
            }
        }
    }
}

/// A parent is strictly shorter than its child.
pub proof fn lemma_parent_shorter(p: Seq<char>)
    ensures
        parent_path(p) matches Some(par) ==> par.len() < p.len(),
{
    if p.len() == 0 || p == seq!['/'] {
    } else {
        lemma_last_sep(p);
        if last_sep(p) == 0 {
            assert(p[0] == '/');
            if p.len() == 1 {
                assert(p =~= seq!['/']);
            }
        }
    }
}

/// The chain of directories walked from `start` up towards
/// `container`: `start` first, then each parent in turn, as long as
/// the directory still lies under `container`; empty as soon as one
/// does not.
pub open spec fn ancestor_chain(start: Seq<char>, container: Seq<char>) -> Seq<Seq<char>>
    decreases start.len(),
    via ancestor_chain_decreases
{
    if !is_path_prefix(start, container) {
        Seq::empty()
    } else {
        match parent_path(start) {
            None => seq![start],
            Some(par) => seq![start] + ancestor_chain(par, container),
        }
    }
}

#[via_fn]
proof fn ancestor_chain_decreases(start: Seq<char>, container: Seq<char>) {
    lemma_parent_shorter(start);
}

/// The accumulator after every member of `chain`, normalized with the
/// conventional segment, has been inserted in order.
pub open spec fn add_chain(paths: Seq<Seq<char>>, chain: Seq<Seq<char>>) -> Seq<Seq<char>>
    decreases chain.len(),
{
    if chain.len() == 0 {
        paths
    } else {
        add_chain(insert_path(paths, with_config_seg(chain[0])), chain.drop_first())
    }
}

} // verus!

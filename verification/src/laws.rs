//! Properties of the accumulator model, stated and proved once for
//! all inputs.

use vstd::prelude::*;
use crate::path_model::{
    add_chain, ancestor_chain, config_seg, ends_with_segment, insert_path, is_path_prefix,
    no_duplicates, with_config_seg,
};

verus! {

/// Insertion is idempotent: a value already present leaves the
/// accumulator unchanged, and an accumulator without duplicates keeps
/// exactly one entry equal to the value, however often it is
/// inserted.
pub proof fn lemma_insert_idempotent(paths: Seq<Seq<char>>, v: Seq<char>)
    requires
        no_duplicates(paths),
    ensures
        insert_path(paths, v).contains(v),
        insert_path(insert_path(paths, v), v) == insert_path(paths, v),
        no_duplicates(insert_path(paths, v)),
        forall|i: int, j: int|
            0 <= i < insert_path(paths, v).len() && 0 <= j < insert_path(paths, v).len()
                && insert_path(paths, v)[i] == v && insert_path(paths, v)[j] == v ==> i == j,
{
    let after = insert_path(paths, v);
    if paths.contains(v) {
    } else {
        assert(after[paths.len() as int] == v);
        assert(after.contains(v));
        assert forall|i: int, j: int| 0 <= i < j < after.len() implies after[i] != after[j] by {
            if j < paths.len() {
                assert(paths[i] != paths[j]);
            } else {
                assert(paths[i] == after[i]);
                assert(after[j] == v);
                assert(!paths.contains(v));
            }
        }
    }
    assert forall|i: int, j: int|
        0 <= i < after.len() && 0 <= j < after.len() && after[i] == v && after[j] == v implies i
        == j by {
        if i < j {
            assert(after[i] != after[j]);
        } else if j < i {
            assert(after[j] != after[i]);
        }
    }
}

/// A path that already ends in the conventional segment is stored as
/// it is: the segment is never appended a second time.
pub proof fn lemma_segment_not_repeated(p: Seq<char>)
    requires
        ends_with_segment(p, config_seg()),
    ensures
        with_config_seg(p) == p,
{
}

/// Walking the ancestors of a start that does not lie under the
/// container adds nothing: the accumulator comes out unchanged.
pub proof fn lemma_walk_outside_container(
    paths: Seq<Seq<char>>,
    start: Seq<char>,
    container: Seq<char>,
)
    requires
        !is_path_prefix(start, container),
    ensures
        add_chain(paths, ancestor_chain(start, container)) == paths,
{
    assert(ancestor_chain(start, container).len() == 0);
}

} // verus!

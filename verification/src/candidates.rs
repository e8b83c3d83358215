//! The lazy, double-ended walk over the candidate file pairs that a
//! search yields.

use vstd::prelude::*;
use crate::name::{local_name, plain_name, WithLocal};
use crate::path_model::join_path;
use crate::path_ops::join_str;

verus! {

/// A position-addressable walk over a fixed snapshot of the
/// accumulated directories, yielding for each one the pair of names
/// to probe.  The walk is double-ended: forward steps consume from
/// the front, backward steps from the back, and the two meet in the
/// middle; an exhausted walk yields nothing, permanently.
pub struct ConfigCandidates {
    conf: WithLocal,
    dirs: Vec<String>,
    front: usize,
    back: usize,
}

impl ConfigCandidates {
    /// The snapshot of directories the walk was built over.
    pub closed spec fn dirs_view(&self) -> Seq<Seq<char>> {
        self.dirs.deep_view()
    }

    /// Index of the next unvisited directory from the front.
    pub closed spec fn spec_front(&self) -> int {
        self.front as int
    }

    /// One past the index of the next unvisited directory from the
    /// back.
    pub closed spec fn spec_back(&self) -> int {
        self.back as int
    }

    /// The normal name shared by every yielded pair.
    pub closed spec fn conf_path(&self) -> Seq<char> {
        self.conf.spec_path()
    }

    /// The override name shared by every yielded pair.
    pub closed spec fn conf_local_path(&self) -> Seq<char> {
        self.conf.spec_local_path()
    }

    /// The cursors stay within the snapshot and never cross.
    pub open spec fn wf(&self) -> bool {
        0 <= self.spec_front() <= self.spec_back() <= self.dirs_view().len()
    }

    /// How many directories are not yet visited.
    pub open spec fn remaining(&self) -> int {
        self.spec_back() - self.spec_front()
    }

    /// The normal name of the candidate for directory `i`.
    pub open spec fn item_path(&self, i: int) -> Seq<char> {
        join_path(self.dirs_view()[i], self.conf_path())
    }

    /// The override name of the candidate for directory `i`.
    pub open spec fn item_local_path(&self, i: int) -> Seq<char> {
        join_path(self.dirs_view()[i], self.conf_local_path())
    }

    /// A walk over a snapshot of `paths`, probing for `app/base.ext`.
    pub(crate) fn new(paths: &Vec<String>, app: &str, base: &str, ext: &str) -> (r:
        ConfigCandidates)
        ensures
            r.wf(),
            r.dirs_view() == paths.deep_view(),
            r.spec_front() == 0,
            r.spec_back() == paths.deep_view().len(),
            r.conf_path() == plain_name(join_path(app@, base@), ext@),
            r.conf_local_path() == local_name(join_path(app@, base@), ext@),
    {
        let joined = join_str(app, base);
        let conf = WithLocal::new(joined.as_str(), ext);
        let n = paths.len();
        let mut dirs: Vec<String> = Vec::new();
        let mut i: usize = 0;
        while i < n
            invariant
                i <= n,
                n == paths.len(),
                dirs@.len() == i,
                forall|j: int| 0 <= j < i ==> #[trigger] dirs.deep_view()[j] == paths.deep_view()[j],
            decreases n - i,
        {
            let ghost pre = dirs.deep_view();
            dirs.push(paths[i].clone());
            proof {
                assert forall|j: int| 0 <= j < i + 1 implies #[trigger] dirs.deep_view()[j]
                    == paths.deep_view()[j] by {
                    if j < i {
                        assert(dirs.deep_view()[j] == pre[j]);
                    }
                }
            }
            i += 1;
        }
        proof {
            assert(dirs.deep_view() =~= paths.deep_view());
        }
        ConfigCandidates { conf, dirs, front: 0, back: n }
    }

    /// The candidate pair for the next unvisited directory from the
    /// front, or nothing once the walk is exhausted — permanently.
    pub fn next(&mut self) -> (r: Option<WithLocal>)
        requires
            old(self).wf(),
        ensures
            final(self).wf(),
            final(self).dirs_view() == old(self).dirs_view(),
            final(self).conf_path() == old(self).conf_path(),
            final(self).conf_local_path() == old(self).conf_local_path(),
            final(self).spec_back() == old(self).spec_back(),
            old(self).remaining() == 0 ==> r is None && final(self).spec_front() == old(self).spec_front(),
            old(self).remaining() > 0 ==> final(self).spec_front() == old(self).spec_front() + 1
                && (r matches Some(wl) && wl.spec_path() == old(self).item_path(
                old(self).spec_front(),
            ) && wl.spec_local_path() == old(self).item_local_path(old(self).spec_front())),
    {
        if self.front < self.back {
            let item = self.conf.joined_to(self.dirs[self.front].as_str());
            self.front = self.front + 1;
            Some(item)
        } else {
            None
        }
    }

    /// The candidate pair for the next unvisited directory from the
    /// back, or nothing once the walk is exhausted — permanently.
    pub fn next_back(&mut self) -> (r: Option<WithLocal>)
        requires
            old(self).wf(),
        ensures
            final(self).wf(),
            final(self).dirs_view() == old(self).dirs_view(),
            final(self).conf_path() == old(self).conf_path(),
            final(self).conf_local_path() == old(self).conf_local_path(),
            final(self).spec_front() == old(self).spec_front(),
            old(self).remaining() == 0 ==> r is None && final(self).spec_back() == old(self).spec_back(),
            old(self).remaining() > 0 ==> final(self).spec_back() == old(self).spec_back() - 1 && (
            r matches Some(wl) && wl.spec_path() == old(self).item_path(old(self).spec_back() - 1)
                && wl.spec_local_path() == old(self).item_local_path(old(self).spec_back() - 1)),
    {
        if self.front < self.back {
            let item = self.conf.joined_to(self.dirs[self.back - 1].as_str());
            self.back = self.back - 1;
            Some(item)
        } else {
            None
        }
    }

    /// Skips `n` candidates from the front and yields the one after,
    /// as `n + 1` forward steps would in one operation; asking for
    /// more than remain exhausts the walk and yields nothing.
    pub fn nth(&mut self, n: usize) -> (r: Option<WithLocal>)
        requires
            old(self).wf(),
        ensures
            final(self).wf(),
            final(self).dirs_view() == old(self).dirs_view(),
            final(self).conf_path() == old(self).conf_path(),
            final(self).conf_local_path() == old(self).conf_local_path(),
            final(self).spec_back() == old(self).spec_back(),
            n < old(self).remaining() ==> final(self).spec_front() == old(self).spec_front() + n
                + 1 && (r matches Some(wl) && wl.spec_path() == old(self).item_path(
                old(self).spec_front() + n,
            ) && wl.spec_local_path() == old(self).item_local_path(old(self).spec_front() + n)),
            n >= old(self).remaining() ==> r is None && final(self).spec_front() == old(self).spec_back(),
    {
        if n < self.back - self.front {
            let i = self.front + n;
            let item = self.conf.joined_to(self.dirs[i].as_str());
            self.front = i + 1;
            Some(item)
        } else {
            self.front = self.back;
            None
        }
    }

    /// Exact bounds on the number of candidates still to come: the
    /// walk always knows its remaining length.
    pub fn size_hint(&self) -> (r: (usize, Option<usize>))
        requires
            self.wf(),
        ensures
            r.0 == self.remaining(),
            r.1 == Some(r.0),
    {
        (self.back - self.front, Some(self.back - self.front))
    }

    /// The number of candidates left, consuming the walk.
    pub fn count(self) -> (r: usize)
        requires
            self.wf(),
        ensures
            r == self.remaining(),
    {
        self.back - self.front
    }

    /// Directory `i` has been consumed by a forward step: forward
    /// steps visit exactly the indices below the front cursor.
    pub open spec fn consumed_from_front(&self, i: int) -> bool {
        0 <= i < self.spec_front()
    }

    /// Directory `i` has been consumed by a backward step: backward
    /// steps visit exactly the indices from the back cursor up.
    pub open spec fn consumed_from_back(&self, i: int) -> bool {
        self.spec_back() <= i < self.dirs_view().len()
    }

    /// Once the walk is exhausted, the directories consumed from the
    /// front and those consumed from the back are disjoint and
    /// together cover the whole snapshot: every directory was
    /// consumed exactly once.
    pub proof fn lemma_exhausted_walk_covered_once(&self)
        requires
            self.wf(),
            self.remaining() == 0,
        ensures
            forall|i: int|
                0 <= i < self.dirs_view().len() ==> #[trigger] self.consumed_from_front(i)
                    || self.consumed_from_back(i),
            forall|i: int|
                !(#[trigger] self.consumed_from_front(i) && self.consumed_from_back(i)),
    {
    }

    /// The candidate pair for the hindmost unvisited directory,
    /// consuming the walk; nothing if it is already exhausted.
    pub fn last(self) -> (r: Option<WithLocal>)
        requires
            self.wf(),
        ensures
            self.remaining() == 0 ==> r is None,
            self.remaining() > 0 ==> (r matches Some(wl) && wl.spec_path() == self.item_path(
                self.spec_back() - 1,
            ) && wl.spec_local_path() == self.item_local_path(self.spec_back() - 1)),
    {
        if self.front < self.back {
            Some(self.conf.joined_to(self.dirs[self.back - 1].as_str()))
        } else {
            None
        }
    }
}

} // verus!

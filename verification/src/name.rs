//! The pair of file names every candidate location is probed with:
//! the normal name and its `.local` override variant.

use vstd::prelude::*;
use vstd::string::StringExecFns;
use crate::path_model::join_path;
use crate::path_ops::join_str;

verus! {

/// The name a configuration file is normally looked up under: the
/// base with the extension appended after a dot, or the bare base
/// when the extension is empty.
pub open spec fn plain_name(base: Seq<char>, ext: Seq<char>) -> Seq<char> {
    if ext.len() == 0 {
        base
    } else {
        base + "."@ + ext
    }
}

/// The override variant: `.local` goes immediately after the base,
/// before the extension.
pub open spec fn local_name(base: Seq<char>, ext: Seq<char>) -> Seq<char> {
    if ext.len() == 0 {
        base + ".local"@
    } else {
        base + ".local"@ + "."@ + ext
    }
}

/// The override form always equals the normal form with `.local`
/// inserted immediately before the extension — or appended, when the
/// extension is empty.
pub proof fn lemma_local_inserted_before_extension(base: Seq<char>, ext: Seq<char>)
    ensures
        ext.len() == 0 ==> local_name(base, ext) == plain_name(base, ext) + ".local"@,
        ext.len() > 0 ==> plain_name(base, ext) == base + "."@ + ext && local_name(base, ext)
            == base + ".local"@ + "."@ + ext,
{
}

/// A configuration path together with its `.local` override variant.
///
/// The override form holds machine-specific settings layered on top
/// of the normal file: `cli-app.kdl` has the override form
/// `cli-app.local.kdl`.
#[derive(Debug, Clone, PartialEq, Eq, Hash)]
pub struct WithLocal {
    path: String,
    local_path: String,
}

impl WithLocal {
    /// The normal form, as a character sequence.
    pub closed spec fn spec_path(&self) -> Seq<char> {
        self.path@
    }

    /// The override form, as a character sequence.
    pub closed spec fn spec_local_path(&self) -> Seq<char> {
        self.local_path@
    }

    /// Computes both the normal and the override form of the name.
    ///
    /// A non-empty extension is appended after a dot; an empty one is
    /// left off entirely, so the forms are `base` and `base.local`.
    /// An empty base yields a leading-dot name such as `.kdl`.
    pub fn new(base: &str, ext: &str) -> (r: WithLocal)
        ensures
            r.spec_path() == plain_name(base@, ext@),
            r.spec_local_path() == local_name(base@, ext@),
    {
        let mut path: String = base.to_owned();
        let mut local_path: String = base.to_owned();
        local_path.append(".local");
        if !ext.is_empty() {
            path.append(".");
            path.append(ext);
            local_path.append(".");
            local_path.append(ext);
        }
        WithLocal { path, local_path }
    }

    /// The form without the added `.local`.
    pub fn path(&self) -> (r: &str)
        ensures
            r@ == self.spec_path(),
    {
        self.path.as_str()
    }

    /// The form with the added `.local`.
    pub fn local_path(&self) -> (r: &str)
        ensures
            r@ == self.spec_local_path(),
    {
        self.local_path.as_str()
    }

    /// Both forms, by value and without copying.
    pub fn into_paths(self) -> (r: (String, String))
        ensures
            r.0@ == self.spec_path(),
            r.1@ == self.spec_local_path(),
    {
        (self.path, self.local_path)
    }

    /// A copy of `self` with both forms joined underneath `dir`.
    pub(crate) fn joined_to(&self, dir: &str) -> (r: WithLocal)
        ensures
            r.spec_path() == join_path(dir@, self.spec_path()),
            r.spec_local_path() == join_path(dir@, self.spec_local_path()),
    {
        WithLocal {
            path: join_str(dir, self.path.as_str()),
            local_path: join_str(dir, self.local_path.as_str()),
        }
    }
}

} // verus!

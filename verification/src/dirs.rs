//! The accumulator of directories in which to look for configuration
//! files.

use vstd::prelude::*;
use crate::path_model::{
    add_chain, ancestor_chain, insert_path, is_absolute, is_path_prefix, lemma_parent_shorter,
    no_duplicates, stored_path, with_config_seg,
};
use crate::path_ops::{ends_with_config, is_absolute_str, is_path_prefix_str, join_str, parent_str};
use crate::candidates::ConfigCandidates;

verus! {

/// The current working directory could not be resolved.
#[derive(Debug, Clone, Copy, PartialEq, Eq, Structural)]
pub struct CurrentDirUnavailable;

/// Which value a platform-directory resolution settles on: the path
/// to store, and whether the conventional segment is to be appended
/// to it.  An absolute override wins and is stored as it is; failing
/// that, an absolute home directory gets the segment appended;
/// anything else resolves to nothing.
pub open spec fn platform_choice(
    env_override: Option<Seq<char>>,
    home: Option<Seq<char>>,
) -> Option<(Seq<char>, bool)> {
    match env_override {
        Some(p) => if is_absolute(p) {
            Some((p, false))
        } else {
            home_choice(home)
        },
        None => home_choice(home),
    }
}

/// The home-directory half of [`platform_choice`].
pub open spec fn home_choice(home: Option<Seq<char>>) -> Option<(Seq<char>, bool)> {
    match home {
        Some(h) => if is_absolute(h) {
            Some((h, true))
        } else {
            None
        },
        None => None,
    }
}

/// Outcome of a home-directory fallback whose resolved value is not
/// known in advance: either nothing usable was found and the
/// accumulator is untouched with the flag still clear, or some
/// absolute home directory was stored with the conventional segment
/// and the flag is set.
pub open spec fn home_fallback_outcome(
    pre: Seq<Seq<char>>,
    post: Seq<Seq<char>>,
    flag: bool,
) -> bool {
    (post == pre && !flag) || (exists|h: Seq<char>|
        is_absolute(h) && flag && post == insert_path(pre, #[trigger] with_config_seg(h)))
}

/// An ordered, duplicate-free list of directories to look for
/// configuration files in, with one idempotency flag per volatile
/// location kind.
#[derive(Debug, Clone)]
pub struct ConfigDirs {
    /// Paths without the application's own subdirectory or file name.
    paths: Vec<String>,
    /// Whether the current working directory has been added.
    added_cwd: bool,
    /// Whether the platform's configuration directory has been added.
    added_platform: bool,
    /// Whether the system-wide `/etc` has been added.
    added_etc: bool,
}

impl ConfigDirs {
    /// The accumulated directories, as character sequences, in
    /// insertion order.
    pub closed spec fn paths_view(&self) -> Seq<Seq<char>> {
        self.paths.deep_view()
    }

    /// Whether the current working directory has been added.
    pub closed spec fn cwd_flag(&self) -> bool {
        self.added_cwd
    }

    /// Whether the platform's configuration directory has been added.
    pub closed spec fn platform_flag(&self) -> bool {
        self.added_platform
    }

    /// Whether the system-wide `/etc` has been added.
    pub closed spec fn etc_flag(&self) -> bool {
        self.added_etc
    }

    /// The accumulator never holds two equal paths.
    pub open spec fn wf(&self) -> bool {
        no_duplicates(self.paths_view())
    }

    /// An accumulator with no paths and no resolution done yet.
    pub fn empty() -> (r: ConfigDirs)
        ensures
            r.wf(),
            r.paths_view() == Seq::<Seq<char>>::empty(),
            !r.cwd_flag(),
            !r.platform_flag(),
            !r.etc_flag(),
    {
        let r = ConfigDirs { paths: Vec::new(), added_cwd: false, added_platform: false, added_etc: false };
        proof {
            assert(r.paths_view() =~= Seq::<Seq<char>>::empty());
        }
        r
    }

    /// Read-only view of the accumulated paths, in insertion order.
    pub fn paths(&self) -> (r: &Vec<String>)
        ensures
            r.deep_view() == self.paths_view(),
    {
        &self.paths
    }

    /// Stores `path` — with the conventional segment appended, when
    /// `check_for_dot_config` asks for it and the path does not end
    /// with the segment already — unless an equal path is present.
    pub(crate) fn _add_path(&mut self, path: &str, check_for_dot_config: bool)
        requires
            old(self).wf(),
        ensures
            final(self).wf(),
            final(self).paths_view() == insert_path(
                old(self).paths_view(),
                stored_path(path@, check_for_dot_config),
            ),
            final(self).cwd_flag() == old(self).cwd_flag(),
            final(self).platform_flag() == old(self).platform_flag(),
            final(self).etc_flag() == old(self).etc_flag(),
    {
        let stored: String = if !check_for_dot_config {
            path.to_owned()
        } else if ends_with_config(path) {
            path.to_owned()
        } else {
            join_str(path, ".config")
        };
        let ghost target: Seq<char> = stored_path(path@, check_for_dot_config);
        let n = self.paths.len();
        let mut i: usize = 0;
        let mut found = false;
        while i < n
            invariant
                i <= n,
                n == self.paths.len(),
                stored@ == target,
                found == exists|j: int| 0 <= j < i && #[trigger] self.paths_view()[j] == target,
            decreases n - i,
        {
            if self.paths[i] == stored {
                found = true;
                proof {
                    assert(self.paths_view()[i as int] == target);
                }
            }
            i += 1;
        }
        if found {
            proof {
                assert(old(self).paths_view().contains(target));
            }
        } else {
            proof {
                assert(forall|j: int| 0 <= j < n ==> #[trigger] self.paths_view()[j] != target);
                assert(!old(self).paths_view().contains(target));
            }
            self.paths.push(stored);
            proof {
                assert(self.paths_view() =~= old(self).paths_view().push(target));
                assert forall|a: int, b: int|
                    0 <= a < b < self.paths_view().len() implies self.paths_view()[a]
                    != self.paths_view()[b] by {
                    if b < n {
                        assert(old(self).paths_view()[a] != old(self).paths_view()[b]);
                    } else {
                        assert(old(self).paths_view()[a] != target);
                    }
                }
            }
        }
    }

    /// Adds `path` to the directories to check, if not already
    /// present; the conventional segment is appended unless `path`
    /// already ends with it.
    pub fn add_path(&mut self, path: &str)
        requires
            old(self).wf(),
        ensures
            final(self).wf(),
            final(self).paths_view() == insert_path(old(self).paths_view(), with_config_seg(path@)),
            final(self).cwd_flag() == old(self).cwd_flag(),
            final(self).platform_flag() == old(self).platform_flag(),
            final(self).etc_flag() == old(self).etc_flag(),
    {
        self._add_path(path, true);
    }

    /// Adds `start` and each of its ancestor directories, nearest
    /// first, as long as the directory still lies under `container` —
    /// `container` itself included.  A `start` outside `container`
    /// adds nothing at all.
    pub fn add_all_paths_until(&mut self, start: &str, container: &str)
        requires
            old(self).wf(),
        ensures
            final(self).wf(),
            final(self).paths_view() == add_chain(
                old(self).paths_view(),
                ancestor_chain(start@, container@),
            ),
            !is_path_prefix(start@, container@) ==> final(self).paths_view() == old(self).paths_view(),
            final(self).cwd_flag() == old(self).cwd_flag(),
            final(self).platform_flag() == old(self).platform_flag(),
            final(self).etc_flag() == old(self).etc_flag(),
    {
        let ghost goal: Seq<Seq<char>> = add_chain(
            old(self).paths_view(),
            ancestor_chain(start@, container@),
        );
        let mut cur: String = start.to_owned();
        loop
            invariant_except_break
                self.wf(),
                add_chain(self.paths_view(), ancestor_chain(cur@, container@)) == goal,
                self.cwd_flag() == old(self).cwd_flag(),
                self.platform_flag() == old(self).platform_flag(),
                self.etc_flag() == old(self).etc_flag(),
            ensures
                self.wf(),
                self.paths_view() == goal,
                self.cwd_flag() == old(self).cwd_flag(),
                self.platform_flag() == old(self).platform_flag(),
                self.etc_flag() == old(self).etc_flag(),
            decreases cur@.len(),
        {
            if !is_path_prefix_str(cur.as_str(), container) {
                break;
            }
            let ghost chain = ancestor_chain(cur@, container@);
            let ghost top_paths = self.paths_view();
            self._add_path(cur.as_str(), true);
            match parent_str(cur.as_str()) {
                None => {
                    proof {
                        assert(chain == seq![cur@]);
                        assert(chain[0] == cur@);
                        assert(chain.drop_first().len() == 0);
                        assert(goal == add_chain(
                            insert_path(top_paths, with_config_seg(chain[0])),
                            chain.drop_first(),
                        ));
                    }
                    break;
                },
                Some(par) => {
                    proof {
                        lemma_parent_shorter(cur@);
                        let rest = ancestor_chain(par@, container@);
                        assert(chain == seq![cur@] + rest);
                        assert(chain[0] == cur@);
                        assert(chain.drop_first() =~= rest);
                    }
                    cur = par;
                },
            }
        }
    }

    /// Adds the system-wide `/etc`, without the conventional segment,
    /// at most once.
    pub fn add_root_etc(&mut self)
        requires
            old(self).wf(),
        ensures
            final(self).wf(),
            old(self).etc_flag() ==> final(self).paths_view() == old(self).paths_view(),
            !old(self).etc_flag() ==> final(self).paths_view() == insert_path(
                old(self).paths_view(),
                "/etc"@,
            ),
            final(self).etc_flag(),
            final(self).cwd_flag() == old(self).cwd_flag(),
            final(self).platform_flag() == old(self).platform_flag(),
    {
        if !self.added_etc {
            self._add_path("/etc", false);
            self.added_etc = true;
        }
    }

    /// Adds the current working directory, which the caller resolved
    /// and hands over in `cwd`, at most once: after the first success
    /// further calls change nothing and succeed, whatever `cwd` then
    /// holds.  While the flag is clear, a `None` — resolution failed —
    /// is reported back as an error and may be retried.
    pub fn add_current_dir(&mut self, cwd: Option<&str>) -> (r: Result<(), CurrentDirUnavailable>)
        requires
            old(self).wf(),
        ensures
            final(self).wf(),
            final(self).platform_flag() == old(self).platform_flag(),
            final(self).etc_flag() == old(self).etc_flag(),
            old(self).cwd_flag() ==> final(self).paths_view() == old(self).paths_view()
                && final(self).cwd_flag() && r is Ok,
            !old(self).cwd_flag() ==> (match cwd {
                Some(d) => final(self).paths_view() == insert_path(
                    old(self).paths_view(),
                    with_config_seg(d@),
                ) && final(self).cwd_flag() && r is Ok,
                None => final(self).paths_view() == old(self).paths_view() && !final(self).cwd_flag() && r is Err,
            }),
    {
        if self.added_cwd {
            return Ok(());
        }
        match cwd {
            Some(d) => {
                self._add_path(d, true);
                self.added_cwd = true;
                Ok(())
            },
            None => Err(CurrentDirUnavailable),
        }
    }

    /// The platform-directory decision, taken on already-resolved
    /// values: at most once, an absolute `env_override` is stored as
    /// it is; failing that, an absolute `home` is stored with the
    /// conventional segment.  While neither resolves, the flag stays
    /// clear and the call may be retried.
    pub fn add_platform_config_dir_from(&mut self, env_override: Option<&str>, home: Option<&str>)
        requires
            old(self).wf(),
        ensures
            final(self).wf(),
            final(self).cwd_flag() == old(self).cwd_flag(),
            final(self).etc_flag() == old(self).etc_flag(),
            old(self).platform_flag() ==> final(self).paths_view() == old(self).paths_view()
                && final(self).platform_flag(),
            !old(self).platform_flag() ==> (match platform_choice(
                env_override.deep_view(),
                home.deep_view(),
            ) {
                Some(choice) => final(self).paths_view() == insert_path(
                    old(self).paths_view(),
                    stored_path(choice.0, choice.1),
                ) && final(self).platform_flag(),
                None => final(self).paths_view() == old(self).paths_view() && !final(self).platform_flag(),
            }),
    {
        if self.added_platform {
            return ;
        }
        let override_ok = match env_override {
            Some(p) => is_absolute_str(p),
            None => false,
        };
        if override_ok {
            match env_override {
                Some(p) => {
                    self._add_path(p, false);
                    self.added_platform = true;
                },
                None => {},
            }
        } else {
            match home {
                Some(h) => {
                    if is_absolute_str(h) {
                        self._add_path(h, true);
                        self.added_platform = true;
                    }
                },
                None => {},
            }
        }
    }

    /// Resolves and adds the platform's configuration directory at
    /// most once.  `env_override` is the `XDG_CONFIG_HOME` value the
    /// caller read from the environment: if absolute, it is stored as
    /// it is; otherwise the user's home directory is looked up and,
    /// if absolute, stored with the conventional segment.  While
    /// nothing resolves, the flag stays clear and the call may be
    /// retried after the environment changes.
    pub fn add_platform_config_dir(&mut self, env_override: Option<&str>)
        requires
            old(self).wf(),
        ensures
            final(self).wf(),
            final(self).cwd_flag() == old(self).cwd_flag(),
            final(self).etc_flag() == old(self).etc_flag(),
            old(self).platform_flag() ==> final(self).paths_view() == old(self).paths_view()
                && final(self).platform_flag(),
            !old(self).platform_flag() ==> (match env_override {
                Some(p) => if is_absolute(p@) {
                    final(self).paths_view() == insert_path(old(self).paths_view(), p@) && final(self).platform_flag()
                } else {
                    home_fallback_outcome(
                        old(self).paths_view(),
                        final(self).paths_view(),
                        final(self).platform_flag(),
                    )
                },
                None => home_fallback_outcome(
                    old(self).paths_view(),
                    final(self).paths_view(),
                    final(self).platform_flag(),
                ),
            }),
    {
        if self.added_platform {
            return ;
        }
        let override_ok = match env_override {
            Some(p) => is_absolute_str(p),
            None => false,
        };
        if override_ok {
            match env_override {
                Some(p) => {
                    self._add_path(p, false);
                    self.added_platform = true;
                },
                None => {},
            }
        } else {
            match home_dir_lookup() {
                Some(h) => {
                    if is_absolute_str(h.as_str()) {
                        self._add_path(h.as_str(), true);
                        self.added_platform = true;
                        proof {
                            assert(is_absolute(h@) && self.platform_flag() && self.paths_view()
                                == insert_path(old(self).paths_view(), with_config_seg(h@)));
                        }
                    }
                },
                None => {},
            }
        }
    }

    /// All candidate file pairs for `app/base.ext` — with the dot
    /// left off when `ext` is empty — one pair per accumulated
    /// directory, in insertion order.
    pub fn search(&self, app: &str, base: &str, ext: &str) -> (r: ConfigCandidates)
        ensures
            r.wf(),
            r.dirs_view() == self.paths_view(),
            r.spec_front() == 0,
            r.spec_back() == self.paths_view().len(),
            r.conf_path() == crate::name::plain_name(
                crate::path_model::join_path(app@, base@),
                ext@,
            ),
            r.conf_local_path() == crate::name::local_name(
                crate::path_model::join_path(app@, base@),
                ext@,
            ),
    {
        ConfigCandidates::new(&self.paths, app, base, ext)
    }
}

/// Relies on `dirs_sys::home_dir`: the user's home directory, when
/// the platform reports one that is valid Unicode.  The result
/// depends on the process environment, so nothing is promised of it.
#[verifier::external_body]
fn home_dir_lookup() -> (r: Option<String>) {
    dirs_sys::home_dir().and_then(|p| p.into_os_string().into_string().ok())
}

} // verus!

//! Executable path operations, each proved against the model in
//! [`crate::path_model`].

use vstd::prelude::*;
use vstd::string::StrSliceExecFns;
use vstd::string::StringExecFns;
use crate::path_model::{
    config_seg, ends_with_segment, is_absolute, is_path_prefix, join_path, last_sep,
    lemma_last_sep, parent_path,
};

verus! {

/// Character-wise equality of two string slices.
fn str_eq(a: &str, b: &str) -> (r: bool)
    ensures
        r == (a@ == b@),
{
    let sa: String = a.to_owned();
    let sb: String = b.to_owned();
    sa == sb
}

/// Whether `p` ends in the conventional configuration segment.
pub fn ends_with_config(p: &str) -> (r: bool)
    ensures
        r == ends_with_segment(p@, config_seg()),
{
    proof {
        reveal_strlit(".config");
    }
    let n = p.unicode_len();
    if n < 7 {
        false
    } else if n == 7 {
        str_eq(p, ".config")
    } else if p.get_char(n - 8) == '/' {
        let suffix = p.substring_char(n - 7, n);
        str_eq(suffix, ".config")
    } else {
        false
    }
}

/// Whether `p` is an absolute path.
pub fn is_absolute_str(p: &str) -> (r: bool)
    ensures
        r == is_absolute(p@),
{
    p.unicode_len() > 0 && p.get_char(0) == '/'
}

/// Joins `rel` underneath the directory `dir`.
pub fn join_str(dir: &str, rel: &str) -> (r: String)
    ensures
        r@ == join_path(dir@, rel@),
{
    let dn = dir.unicode_len();
    if dn == 0 || is_absolute_str(rel) {
        rel.to_owned()
    } else if dir.get_char(dn - 1) == '/' {
        let mut s = dir.to_owned();
        s.append(rel);
        s
    } else {
        let mut s = dir.to_owned();
        s.append("/");
        s.append(rel);
        proof {
            reveal_strlit("/");
            assert(s@ =~= dir@ + seq!['/'] + rel@);
        }
        s
    }
}

/// Whether `container` is a path-prefix of `p`.
pub fn is_path_prefix_str(p: &str, container: &str) -> (r: bool)
    ensures
        r == is_path_prefix(p@, container@),
{
    let n = p.unicode_len();
    let m = container.unicode_len();
    if m == 0 {
        true
    } else if n == m {
        let r = str_eq(p, container);
        proof {
            if container@ == seq!['/'] && is_absolute(p@) {
                assert(p@ =~= container@);
            }
        }
        r
    } else if n < m {
        false
    } else if m == 1 && container.get_char(0) == '/' {
        proof {
            assert(container@ =~= seq!['/']);
            if p@.subrange(0, 1) == container@ {
                assert(p@[0] == container@[0]);
            }
        }
        p.get_char(0) == '/'
    } else {
        proof {
            if container@ == seq!['/'] {
                assert(container@[0] == '/');
            }
        }
        let pre = p.substring_char(0, m);
        str_eq(pre, container) && p.get_char(m) == '/'
    }
}

/// The parent directory of `p`, following [`parent_path`].
pub fn parent_str(p: &str) -> (r: Option<String>)
    ensures
        r is Some <==> parent_path(p@) is Some,
        r matches Some(s) ==> parent_path(p@) == Some(s@),
{
    let n = p.unicode_len();
    if n == 0 {
        None
    } else if n == 1 && p.get_char(0) == '/' {
        proof {
            assert(p@ =~= seq!['/']);
        }
        None
    } else {
        proof {
            lemma_last_sep(p@);
            if p@.len() != 1 {
                assert(p@ != seq!['/']);
            }
        }
        let mut i: usize = n;
        while i > 0 && p.get_char(i - 1) != '/'
            invariant
                i <= n,
                n == p@.len(),
                n >= 1,
                forall|j: int| i <= j < n ==> p@[j] != '/',
            decreases i,
        {
            i -= 1;
        }
        if i == 0 {
            proof {
                assert(last_sep(p@) == -1);
            }
            Some(String::new())
        } else if i == 1 {
            proof {
                assert(last_sep(p@) == 0);
                reveal_strlit("/");
                assert(("/")@ =~= seq!['/']);
            }
            Some("/".to_owned())
        } else {
            proof {
                assert(last_sep(p@) == i - 1);
            }
            Some(p.substring_char(0, i - 1).to_owned())
        }
    }
}

} // verus!

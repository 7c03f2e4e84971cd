//! Pure path arithmetic on `/`-separated path strings.
//!
//! Paths are modelled as their character sequences.  A path is absolute when
//! it begins with the separator; repeated separators act as one, and
//! trailing separators are ignored when a path's containing directory is
//! taken.  Nothing here touches the filesystem.

use vstd::prelude::*;
use vstd::string::StrSliceExecFns;

verus! {

/// A path is absolute when it begins with the separator.
pub open spec fn is_abs(p: Seq<char>) -> bool {
    p.len() > 0 && p[0] == '/'
}

/// Index just past the last non-separator character of `s`: the trailing
/// separators are exactly `s[end_trim(s) .. s.len()]`.
pub open spec fn end_trim(s: Seq<char>) -> int
    decreases s.len(),
{
    if s.len() == 0 {
        0
    } else if s[s.len() - 1] == '/' {
        end_trim(s.drop_last())
    } else {
        s.len() as int
    }
}

/// The largest index `i < j` with `s[i] == c`, or `-1` when there is none.
pub open spec fn last_index_before(s: Seq<char>, c: char, j: int) -> int
    decreases j,
{
    if j <= 0 {
        -1
    } else if s[j - 1] == c {
        j - 1
    } else {
        last_index_before(s, c, j - 1)
    }
}

/// The directory containing `p`: everything before the separator in front
/// of `p`'s last component, with trailing separators dropped on both sides.
/// `None` for the empty path and for the root, which contain no component.
pub open spec fn parent_of(p: Seq<char>) -> Option<Seq<char>> {
    let j = end_trim(p);
    if j == 0 {
        None
    } else {
        let i = last_index_before(p, '/', j);
        if i == -1 {
            Some(Seq::<char>::empty())
        } else {
            let k = end_trim(p.take(i));
            if k == 0 {
                Some("/"@)
            } else {
                Some(p.take(k))
            }
        }
    }
}

/// Joining `rel` onto the directory `dir`: an absolute `rel` stands alone,
/// an empty `dir` adds nothing, and otherwise exactly one separator divides
/// the two parts.
pub open spec fn join_of(dir: Seq<char>, rel: Seq<char>) -> Seq<char> {
    if is_abs(rel) {
        rel
    } else if dir.len() == 0 {
        rel
    } else if dir[dir.len() - 1] == '/' {
        dir + rel
    } else {
        dir + "/"@ + rel
    }
}

/// Failure of `resolve`: the base path has no containing directory.
#[derive(Clone, Copy, PartialEq, Eq, Structural, Debug)]
pub enum PathError {
    NoParent,
}

impl PathError {
    /// The human-readable description handed back to the caller.
    pub fn message(&self) -> (m: String)
        ensures
            m@ == "Failed to get parent directory"@,
    {
        "Failed to get parent directory".to_owned()
    }
}

/// `end_trim` of the first `from` characters of `s`, computed by scanning
/// backwards over separators.
fn trim_seps(s: &str, from: usize) -> (j: usize)
    requires
        from <= s@.len(),
    ensures
        j <= from,
        j as int == end_trim(s@.take(from as int)),
{
    let mut j = from;
    while j > 0 && s.get_char(j - 1) == '/'
        invariant
            j <= from <= s@.len(),
            end_trim(s@.take(from as int)) == end_trim(s@.take(j as int)),
        decreases j,
    {
        proof {
            assert(s@.take(j as int).drop_last() =~= s@.take(j - 1));
        }
        j = j - 1;
    }
    proof {
        if j > 0 {
            assert(s@.take(j as int).len() == j);
            assert(s@.take(j as int)[j - 1] != '/');
        }
    }
    j
}

/// The largest index below `from` where `c` occurs in `s`, scanning
/// backwards.
fn rfind_before(s: &str, c: char, from: usize) -> (r: Option<usize>)
    requires
        from <= s@.len(),
    ensures
        match r {
            Some(i) => i < from && i as int == last_index_before(s@, c, from as int),
            None => last_index_before(s@, c, from as int) == -1,
        },
{
    let mut j = from;
    while j > 0
        invariant
            j <= from <= s@.len(),
            last_index_before(s@, c, from as int) == last_index_before(s@, c, j as int),
        decreases j,
    {
        if s.get_char(j - 1) == c {
            return Some(j - 1);
        }
        j = j - 1;
    }
    None
}

/// The largest index where `c` occurs in `s`.
pub(crate) fn rfind_char(s: &str, c: char) -> (r: Option<usize>)
    ensures
        match r {
            Some(i) => i < s@.len() && i as int == last_index_before(s@, c, s@.len() as int),
            None => last_index_before(s@, c, s@.len() as int) == -1,
        },
{
    let n = s.unicode_len();
    rfind_before(s, c, n)
}

/// Whether `p` is an absolute path.
pub fn is_absolute_path(p: &str) -> (b: bool)
    ensures
        b == is_abs(p@),
{
    p.unicode_len() > 0 && p.get_char(0) == '/'
}

/// The directory containing `base`, or `None` when `base` has none.
pub fn parent_dir(base: &str) -> (r: Option<String>)
    ensures
        match r {
            Some(d) => parent_of(base@) == Some(d@),
            None => parent_of(base@) is None,
        },
{
    let n = base.unicode_len();
    proof {
        assert(base@.take(n as int) =~= base@);
    }
    let j = trim_seps(base, n);
    if j == 0 {
        return None;
    }
    match rfind_before(base, '/', j) {
        None => Some(String::new()),
        Some(i) => {
            let k = trim_seps(base, i);
            if k == 0 {
                Some("/".to_owned())
            } else {
                proof {
                    assert(base@.subrange(0, k as int) =~= base@.take(k as int));
                }
                Some(base.substring_char(0, k).to_owned())
            }
        },
    }
}

/// `rel` joined onto the directory `dir`, with exactly one separator
/// between the two parts.
pub fn join_paths(dir: &str, rel: &str) -> (r: String)
    ensures
        r@ == join_of(dir@, rel@),
{
    if is_absolute_path(rel) {
        return rel.to_owned();
    }
    let n = dir.unicode_len();
    if n == 0 {
        return rel.to_owned();
    }
    let mut s = dir.to_owned();
    if s.as_str().get_char(n - 1) != '/' {
        s.append("/");
    }
    s.append(rel);
    s
}

/// The path `relative_path` taken from the directory that contains
/// `base_path`; fails exactly when `base_path` has no such directory.
pub fn resolve(base_path: &str, relative_path: &str) -> (r: Result<String, PathError>)
    ensures
        r is Ok <==> parent_of(base_path@) is Some,
        r is Ok ==> r->Ok_0@ == join_of(parent_of(base_path@)->Some_0, relative_path@),
        r is Err ==> r->Err_0 == PathError::NoParent,
{
    match parent_dir(base_path) {
        Some(d) => Ok(join_paths(d.as_str(), relative_path)),
        None => Err(PathError::NoParent),
    }
}

} // verus!

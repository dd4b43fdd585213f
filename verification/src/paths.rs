//! Unix paths held as text, and the path operations the jail layout needs.
use vstd::prelude::*;
use vstd::string::*;
use crate::text::{push_char, to_chars};

verus! {

/// Whether a Unix path is absolute: it starts at the root `/`.
pub open spec fn is_absolute(p: Seq<char>) -> bool {
    p.len() > 0 && p[0] == '/'
}

/// `base` joined with `p` as `PathBuf::join` does on Unix: an absolute `p`
/// replaces `base`; otherwise `p` is appended, with a `/` between them unless
/// `base` is empty or already ends with one.
pub open spec fn join(base: Seq<char>, p: Seq<char>) -> Seq<char> {
    if is_absolute(p) {
        p
    } else if base.len() == 0 || base.last() == '/' {
        base + p
    } else {
        base + seq!['/'] + p
    }
}

/// Whether an absolute path is plain: it has something after the root, no
/// empty component (`//`), no `.` component and no trailing separator.
pub open spec fn plain_absolute(p: Seq<char>) -> bool {
    &&& is_absolute(p)
    &&& p.len() > 1
    &&& p.last() != '/'
    &&& forall|i: int| 0 <= i < p.len() - 1 && #[trigger] p[i] == '/' ==> p[i + 1] != '/'
        && !(p[i + 1] == '.' && (i + 2 == p.len() || p[i + 2] == '/'))
}

/// Whether a path is plain: not empty, no empty component (`//`), no `.`
/// component and no trailing separator. Its components are then exactly the
/// texts between its separators.
pub open spec fn plain_path(p: Seq<char>) -> bool {
    &&& p.len() > 0
    &&& p.last() != '/'
    &&& !(p[0] == '.' && (p.len() == 1 || p[1] == '/'))
    &&& forall|i: int| 0 <= i < p.len() - 1 && #[trigger] p[i] == '/' ==> p[i + 1] != '/'
        && !(p[i + 1] == '.' && (i + 2 == p.len() || p[i + 2] == '/'))
}

/// The index of the last separator of a path, or -1 without one.
pub open spec fn last_sep(p: Seq<char>) -> int
    decreases p.len(),
{
    if p.len() == 0 {
        -1
    } else if p.last() == '/' {
        p.len() - 1
    } else {
        last_sep(p.drop_last())
    }
}

/// The text after a path's last separator: its final component.
pub open spec fn final_component(p: Seq<char>) -> Seq<char> {
    p.subrange(last_sep(p) + 1, p.len() as int)
}

/// A path without its final component, as written: the root where the
/// final component follows the root, empty where there is no separator.
pub open spec fn leading_part(p: Seq<char>) -> Seq<char> {
    if last_sep(p) == 0 {
        seq!['/']
    } else if last_sep(p) < 0 {
        Seq::empty()
    } else {
        p.subrange(0, last_sep(p))
    }
}

/// Whether path `p` lies below directory `dir`: it is `dir` followed by a
/// separator (or `dir` already ends with one) and more.
pub open spec fn lies_below(dir: Seq<char>, p: Seq<char>) -> bool {
    &&& dir.len() > 0
    &&& p.len() > dir.len()
    &&& p.subrange(0, dir.len() as int) == dir
    &&& (dir.last() == '/' || p[dir.len() as int] == '/')
}

/// A relative path joined onto a directory that does not end in a
/// separator lies below it.
pub proof fn lemma_join_lies_below(dir: Seq<char>, p: Seq<char>)
    requires
        dir.len() > 0,
        dir.last() != '/',
        !is_absolute(p),
    ensures
        lies_below(dir, join(dir, p)),
{
    assert((dir + seq!['/'] + p).subrange(0, dir.len() as int) =~= dir);
    assert((dir + seq!['/'] + p)[dir.len() as int] == '/');
}

/// Joining a relative path never ends in a separator when the path does
/// not, and ends in the path's last character.
pub proof fn lemma_join_last(dir: Seq<char>, p: Seq<char>)
    requires
        p.len() > 0,
        !is_absolute(p),
    ensures
        join(dir, p).len() > 0,
        join(dir, p).last() == p.last(),
{
}

/// Tests `is_absolute`.
pub fn path_is_absolute(p: &str) -> (b: bool)
    ensures
        b == is_absolute(p@),
{
    let n = p.unicode_len();
    n > 0 && p.get_char(0) == '/'
}

/// Joins two paths (`PathBuf::join` on Unix).
pub fn path_join(base: &str, p: &str) -> (r: String)
    ensures
        r@ == join(base@, p@),
{
    if path_is_absolute(p) {
        return String::from_str(p);
    }
    let mut r = String::from_str(base);
    let n = base.unicode_len();
    if n > 0 && base.get_char(n - 1) != '/' {
        push_char(&mut r, '/');
    }
    r.append(p);
    proof {
        if !(base@.len() == 0 || base@.last() == '/') {
            assert(base@.push('/') =~= base@ + seq!['/']);
        }
    }
    r
}

/// The final component of a path as `Path::file_name` gives it, or `None`
/// where the path ends in `..` or has no normal component.
pub uninterp spec fn path_file_name(path: Seq<char>) -> Option<Seq<char>>;

/// The path that `Path::strip_prefix("/")` leaves of an absolute path.
pub uninterp spec fn path_strip_root(path: Seq<char>) -> Seq<char>;

/// Calls `Path::file_name` on `path`. Claims that the result is that
/// function of the path alone, that a name, being one component of the
/// path, is not absolute, and that the name of a plain path is its final
/// component, or nothing where that is `..`.
#[verifier::external_body]
pub(crate) fn file_name(path: &str) -> (r: Option<String>)
    ensures
        match r {
            Some(s) => path_file_name(path@) == Some(s@),
            None => path_file_name(path@) is None,
        },
        r matches Some(s) ==> !is_absolute(s@),
        plain_path(path@) && final_component(path@) != ".."@ ==> r is Some,
        plain_path(path@) && final_component(path@) == ".."@ ==> r is None,
        r matches Some(s) ==> (plain_path(path@) ==> s@ == final_component(path@)),
{
    std::path::Path::new(path).file_name().map(|s| s.to_string_lossy().into_owned())
}

/// Calls `Path::strip_prefix("/")` on `path`. Claims that it succeeds on an
/// absolute path (its root is a prefix), that what it returns is a function
/// of the path alone, and that it is relative (the components after the
/// root); for a plain absolute path those components are the text after the
/// root, unchanged.
#[verifier::external_body]
pub(crate) fn strip_root(path: &str) -> (r: Option<String>)
    ensures
        is_absolute(path@) ==> r is Some,
        r matches Some(s) ==> s@ == path_strip_root(path@),
        r matches Some(s) ==> !is_absolute(s@),
        r matches Some(s) ==> (plain_absolute(path@) ==> s@ == path@.drop_first()),
{
    std::path::Path::new(path).strip_prefix("/").ok().map(|p| p.to_string_lossy().into_owned())
}

/// The path without its final component, as `Path::parent` gives it, or
/// `None` where the path ends in a root or is empty.
pub uninterp spec fn path_parent(path: Seq<char>) -> Option<Seq<char>>;

/// Calls `Path::parent` on `path`. Claims that the result is that function
/// of the path alone, and that a plain path has one: the path without its
/// final component.
#[verifier::external_body]
pub(crate) fn parent(path: &str) -> (r: Option<String>)
    ensures
        match r {
            Some(s) => path_parent(path@) == Some(s@),
            None => path_parent(path@) is None,
        },
        plain_path(path@) ==> r is Some,
        r matches Some(s) ==> (plain_path(path@) ==> s@ == leading_part(path@)),
{
    std::path::Path::new(path).parent().map(|p| p.to_string_lossy().into_owned())
}

} // verus!

//! File system paths, held as text.
use vstd::prelude::*;
use crate::text::{chars_of, push_chars, split_char, string_of};

verus! {

/// `part` joined onto `base` (`Path::join` on Unix): an absolute `part`
/// replaces `base`; otherwise a `'/'` separates them unless `base` is empty
/// or already ends with one.
pub open spec fn join_path(base: Seq<char>, part: Seq<char>) -> Seq<char> {
    if part.len() > 0 && part[0] == '/' {
        part
    } else if base.len() == 0 || base.last() == '/' {
        base + part
    } else {
        base + seq!['/'] + part
    }
}

/// `p` is a relative path (`Path::is_relative` on Unix).
pub open spec fn is_relative_path(p: Seq<char>) -> bool {
    !(p.len() > 0 && p[0] == '/')
}

/// What `Path::strip_prefix` gives for `full` and `root`, rendered as text.
pub uninterp spec fn path_strip_prefix(root: Seq<char>, full: Seq<char>) -> Option<Seq<char>>;

/// The components of `path` that name something (`Path::components` on
/// Unix): the pieces between `/`, without the empty ones that repeated,
/// leading and trailing separators leave, and without `.`.
pub open spec fn named_components(path: Seq<char>) -> Seq<Seq<char>> {
    split_char(path, '/').filter(|c: Seq<char>| c.len() > 0 && c != "."@)
}

/// What `Path::file_name` gives for `path` on Unix: the last component, none
/// when there is no component or the last one is `..`.
pub open spec fn path_file_name(path: Seq<char>) -> Option<Seq<char>> {
    let cs = named_components(path);
    if cs.len() == 0 || cs.last() == ".."@ {
        None
    } else {
        Some(cs.last())
    }
}

/// The view of an optional string.
pub open spec fn opt_view(o: Option<String>) -> Option<Seq<char>> {
    match o {
        Some(s) => Some(s@),
        None => None,
    }
}

/// `part` joined onto `base` (`Path::join`).
pub fn join(base: &str, part: &str) -> (r: String)
    ensures
        r@ == join_path(base@, part@),
{
    let b = chars_of(base);
    let p = chars_of(part);
    if p.len() > 0 && p[0] == '/' {
        return string_of(&p);
    }
    let mut r = string_of(&b);
    if !(b.len() == 0 || b[b.len() - 1] == '/') {
        r.append("/");
        proof {
            reveal_strlit("/");
        }
    }
    push_chars(&mut r, &p);
    r
}

/// Whether `p` is a relative path (`Path::is_relative`).
pub fn is_relative(p: &str) -> (r: bool)
    ensures
        r == is_relative_path(p@),
{
    let v = chars_of(p);
    !(v.len() > 0 && v[0] == '/')
}

/// `full` relative to `root` (std `Path::strip_prefix`, rendered as text),
/// `None` when `root` is not a prefix of `full` component by component; the
/// result is only named.
#[verifier::external_body]
pub(crate) fn strip_path_prefix(root: &str, full: &str) -> (r: Option<String>)
    ensures
        opt_view(r) == path_strip_prefix(root@, full@),
{
    std::path::Path::new(full).strip_prefix(root).ok().map(|p| p.to_string_lossy().into_owned())
}

/// The last component of `path` (std `Path::file_name`, rendered as text):
/// stated to be `path_file_name`, which follows the documentation of
/// `Path::file_name` and `Path::components` (repeated separators and `.` are
/// ignored; `None` when the path ends in `..`, is a root or is empty).
#[verifier::external_body]
pub(crate) fn file_name(path: &str) -> (r: Option<String>)
    ensures
        opt_view(r) == path_file_name(path@),
{
    std::path::Path::new(path).file_name().map(|n| n.to_string_lossy().into_owned())
}

} // verus!

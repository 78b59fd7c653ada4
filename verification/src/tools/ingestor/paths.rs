//! File name parts, as std's path handling finds them.

use vstd::prelude::*;
use crate::text::{contains, split_on, starts_with, starts_with_chars, to_chars, from_chars, owned};

verus! {

/// A path that every platform's path rules read alike: not empty, no `\`
/// or `:`, no leading `//`, and not ending in `/` or `.`. Its file name is
/// the piece after its last `/`.
pub open spec fn plain_path(p: Seq<char>) -> bool {
    &&& p.len() > 0
    &&& !p.contains('\\')
    &&& !p.contains(':')
    &&& !starts_with(p, "//"@)
    &&& p.last() != '/'
    &&& p.last() != '.'
}

/// The file name of a plain path: the piece after its last `/`.
pub open spec fn plain_file_name(p: Seq<char>) -> Seq<char> {
    split_on(p, '/').last()
}

/// The extension of a plain path, as std documents it: none when the file
/// name has no `.` or only a leading one, else the text after its final
/// `.`.
pub open spec fn plain_extension(p: Seq<char>) -> Option<Seq<char>> {
    let parts = split_on(plain_file_name(p), '.');
    if parts.len() < 2 || (parts.len() == 2 && parts[0].len() == 0) {
        None
    } else {
        Some(parts.last())
    }
}

/// The extension text of a plain path: its extension, or empty without one.
pub open spec fn plain_extension_text(p: Seq<char>) -> Seq<char> {
    match plain_extension(p) {
        Some(e) => e,
        None => Seq::empty(),
    }
}

/// The extension of a path (`Path::extension`, as UTF-8). Trusted wrapper.
/// On every platform an extension is a piece of the path after a dot, so it
/// holds no dot and no `/`; for a plain path it is `plain_extension`, as
/// std's documentation gives it. Which piece it is for other paths depends
/// on the platform's path rules, and is not stated.
#[verifier::external_body]
pub fn path_extension(path: &str) -> (r: Option<String>)
    ensures
        r matches Some(e) ==> contains(path@, e@) && !e@.contains('.') && !e@.contains('/'),
        plain_path(path@) ==> (r is None <==> plain_extension(path@) is None),
        plain_path(path@) ==> (r matches Some(e) ==> plain_extension(path@) == Some(e@)),
{
    std::path::Path::new(path).extension().and_then(|e| e.to_str()).map(|e| e.to_string())
}

/// The file name of a path (`Path::file_name`, as UTF-8). Trusted wrapper.
/// On every platform a file name is a non-empty piece of the path without
/// `/`; for a plain path it is the piece after the last `/`. Which piece it
/// is for other paths depends on the platform's path rules, and is not
/// stated.
#[verifier::external_body]
pub fn path_file_name(path: &str) -> (r: Option<String>)
    ensures
        r matches Some(n) ==> contains(path@, n@) && n@.len() > 0 && !n@.contains('/'),
        plain_path(path@) ==> r is Some,
        plain_path(path@) ==> (r matches Some(n) ==> n@ == plain_file_name(path@)),
{
    std::path::Path::new(path).file_name().and_then(|n| n.to_str()).map(|n| n.to_string())
}

/// A path as text with the Windows extended-length prefix `\\?\` taken
/// off, where it has one; other paths are returned as they are.
pub fn strip_extended_length_prefix(path: &str) -> (r: String)
    ensures
        starts_with(path@, "\\\\?\\"@) ==> r@ == path@.skip(4),
        !starts_with(path@, "\\\\?\\"@) ==> r@ == path@,
{
    let c = to_chars(path);
    let prefix = to_chars("\\\\?\\");
    proof {
        reveal_strlit("\\\\?\\");
    }
    if starts_with_chars(c.as_slice(), prefix.as_slice()) {
        let rest = c.as_slice().split_at(4).1;
        assert(rest@ =~= path@.skip(4));
        from_chars(rest)
    } else {
        owned(path)
    }
}

} // verus!

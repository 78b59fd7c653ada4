//! Helpers for file ingestion.

use vstd::prelude::*;
use crate::tools::ingestor::paths::path_extension;

verus! {

/// Default chunk size for text splitting.
pub const DEFAULT_CHUNK_SIZE: usize = 1000;

/// Extensions of archive files.
pub open spec fn archive_extensions() -> Seq<Seq<char>> {
    seq!["zip"@, "tar"@, "gz"@, "tgz"@, "tar.gz"@]
}

/// Whether an extension, ignoring case, is an archive extension.
pub fn is_archive_extension(ext: &str) -> (r: bool)
    ensures
        r == archive_extensions().contains(crate::text::spec_to_lowercase(ext@)),
{
    let lower = crate::text::to_lowercase(ext);
    let l = lower.as_str();
    let r = crate::text::str_eq(l, "zip") || crate::text::str_eq(l, "tar") || crate::text::str_eq(l, "gz")
        || crate::text::str_eq(l, "tgz") || crate::text::str_eq(l, "tar.gz");
    proof {
        let s = crate::text::spec_to_lowercase(ext@);
        let a = archive_extensions();
        if r {
            if s == "zip"@ { assert(a[0] == s); }
            if s == "tar"@ { assert(a[1] == s); }
            if s == "gz"@ { assert(a[2] == s); }
            if s == "tgz"@ { assert(a[3] == s); }
            if s == "tar.gz"@ { assert(a[4] == s); }
        }
    }
    r
}

/// Check if a file is an archive by its extension; see `is_archive_extension`.
/// For a plain path the extension is the one std documents; for other
/// paths it comes from the platform's path rules, and only its kind is
/// stated.
pub fn is_archive_file(path: &str) -> (r: bool)
    ensures
        r ==> exists|e: Seq<char>| archive_extensions().contains(crate::text::spec_to_lowercase(e)),
        crate::tools::ingestor::paths::plain_path(path@) ==> r == match crate::tools::ingestor::paths::plain_extension(path@) {
            Some(e) => archive_extensions().contains(crate::text::spec_to_lowercase(e)),
            None => false,
        },
{
    match path_extension(path) {
        Some(e) => is_archive_extension(e.as_str()),
        None => false,
    }
}

} // verus!

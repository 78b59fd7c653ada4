//! Ingestion bookkeeping: which files were ingested recently, and the inputs
//! and results of the ingestion tools.

pub mod helpers;
pub mod ingestion;
pub mod batch;

use vstd::prelude::*;
use crate::str_map::{StrMap, keys_of, kv_insert};
use crate::text::{to_chars, str_eq};
use crate::ids::{instant_now, elapsed_secs};

verus! {

/// Default chunk size for text splitting.
pub const DEFAULT_CHUNK_SIZE: usize = 1000;

/// Default overlap between chunks.
pub const DEFAULT_CHUNK_OVERLAP: usize = 100;

/// Default timeout for ingestion operations, in seconds.
pub const DEFAULT_INGEST_TIMEOUT_SECS: u64 = 60;

/// How long after an ingestion deletions can be verified, in seconds.
pub const DELETION_WINDOW_SECS: u64 = 300;

/// Whether deletions can still be verified this many whole seconds after
/// the last ingestion: less than five minutes.
pub fn within_deletion_window(secs: u64) -> (r: bool)
    ensures
        r == (secs < DELETION_WINDOW_SECS),
{
    secs < DELETION_WINDOW_SECS
}

/// Tracks recently ingested files for deletion verification, so that files
/// are not deleted without having been ingested.
pub struct IngestTracker {
    recently_ingested: StrMap<()>,
    last_ingest_time: Option<std::time::Instant>,
}

impl IngestTracker {
    /// The recorded paths.
    pub closed spec fn paths(&self) -> Set<Seq<char>> {
        keys_of(self.recently_ingested@).to_set()
    }

    /// Whether an ingestion has been recorded since the last clear.
    pub closed spec fn has_ingested(&self) -> bool {
        self.last_ingest_time is Some
    }

    /// An empty tracker.
    pub fn new() -> (r: Self)
        ensures
            r.paths() == Set::<Seq<char>>::empty(),
            !r.has_ingested(),
    {
        let r = IngestTracker { recently_ingested: StrMap::new(), last_ingest_time: None };
        assert(keys_of(r.recently_ingested@) =~= Seq::<Seq<char>>::empty());
        assert(r.paths() =~= Set::<Seq<char>>::empty());
        r
    }

    /// Record that files were ingested, now.
    pub fn record_ingestion(&mut self, file_paths: Vec<String>)
        ensures
            final(self).paths() == old(self).paths() + crate::text::string_views(file_paths@).to_set(),
            final(self).has_ingested(),
    {
        let ghost start = self.paths();
        let ghost all = crate::text::string_views(file_paths@);
        let mut i: usize = 0;
        assert(all.take(0).to_set() =~= Set::<Seq<char>>::empty());
        assert(self.paths() =~= start + all.take(0).to_set());
        let n = file_paths.len();
        let mut paths = file_paths;
        let mut rest: Vec<String> = Vec::new();
        while i < n
            invariant
                n == paths@.len(),
                all == crate::text::string_views(paths@),
                i <= n,
                self.paths() == start + all.take(i as int).to_set(),
            decreases n - i,
        {
            let p = paths[i].clone();
            let ghost before = self.recently_ingested@;
            self.recently_ingested.insert(p, ());
            proof {
                lemma_keys_insert(before, all[i as int]);
                assert(all.take(i + 1) =~= all.take(i as int).push(all[i as int]));
                all.take(i as int).lemma_push_to_set_commute(all[i as int]);
                assert(self.paths() =~= start + all.take(i + 1).to_set());
            }
            i += 1;
        }
        assert(all.take(n as int) =~= all);
        self.last_ingest_time = Some(instant_now());
    }

    /// Whether `file_path` was recorded, ignoring letter case.
    pub fn is_recorded(&self, file_path: &str) -> (r: bool)
        ensures
            r == exists|p: Seq<char>| #[trigger] self.paths().contains(p) && crate::text::spec_to_lowercase(p)
                == crate::text::spec_to_lowercase(file_path@),
    {
        let target = crate::text::to_lowercase(file_path);
        let ghost ks = keys_of(self.recently_ingested@);
        let mut i: usize = 0;
        while i < self.recently_ingested.len()
            invariant
                i <= ks.len(),
                ks == keys_of(self.recently_ingested@),
                ks.len() == self.recently_ingested@.len(),
                target@ == crate::text::spec_to_lowercase(file_path@),
                forall|j: int| 0 <= j < i ==> crate::text::spec_to_lowercase(#[trigger] ks[j]) != target@,
            decreases ks.len() - i,
        {
            let lower = crate::text::to_lowercase(self.recently_ingested.key_at(i).as_str());
            if str_eq(lower.as_str(), target.as_str()) {
                assert(self.paths().contains(ks[i as int]));
                return true;
            }
            i += 1;
        }
        proof {
            assert forall|p: Seq<char>| #[trigger] self.paths().contains(p) implies crate::text::spec_to_lowercase(p)
                != crate::text::spec_to_lowercase(file_path@) by {
                let j = choose|j: int| 0 <= j < ks.len() && ks[j] == p;
                assert(crate::text::spec_to_lowercase(ks[j]) != target@);
            }
        }
        false
    }

    /// Whether deletions can be verified: an ingestion was recorded less
    /// than five minutes ago. Without one, never; with one, the clock decides.
    pub fn can_verify_deletion(&self) -> (r: bool)
        ensures
            !self.has_ingested() ==> !r,
    {
        match &self.last_ingest_time {
            Some(t) => within_deletion_window(elapsed_secs(t)),
            None => false,
        }
    }

    /// Clear the tracker.
    pub fn clear(&mut self)
        ensures
            final(self).paths() == Set::<Seq<char>>::empty(),
            !final(self).has_ingested(),
    {
        self.recently_ingested.clear();
        self.last_ingest_time = None;
        assert(keys_of(self.recently_ingested@) =~= Seq::<Seq<char>>::empty());
        assert(self.paths() =~= Set::<Seq<char>>::empty());
    }
}

/// A file recorded as ingested is then reported as recorded, whatever the
/// letter case it is asked about in.
pub proof fn lemma_recorded_after_ingestion(
    before: IngestTracker,
    after: IngestTracker,
    files: Seq<Seq<char>>,
    f: Seq<char>,
    asked: Seq<char>,
)
    requires
        after.paths() == before.paths() + files.to_set(),
        files.contains(f),
        crate::text::spec_to_lowercase(asked) == crate::text::spec_to_lowercase(f),
    ensures
        exists|p: Seq<char>| #[trigger] after.paths().contains(p) && crate::text::spec_to_lowercase(p)
            == crate::text::spec_to_lowercase(asked),
{
    assert(files.to_set().contains(f));
    assert(after.paths().contains(f));
}

/// A cleared tracker reports no file as recorded.
pub proof fn lemma_cleared_reports_nothing(t: IngestTracker, asked: Seq<char>)
    requires
        t.paths() == Set::<Seq<char>>::empty(),
    ensures
        !exists|p: Seq<char>| #[trigger] t.paths().contains(p) && crate::text::spec_to_lowercase(p)
            == crate::text::spec_to_lowercase(asked),
{
}

/// Inserting a key adds it to the key set.
proof fn lemma_keys_insert(kv: Seq<(Seq<char>, ())>, k: Seq<char>)
    ensures
        keys_of(kv_insert(kv, k, ())).to_set() == keys_of(kv).to_set().insert(k),
{
    let after = kv_insert(kv, k, ());
    match crate::str_map::key_pos(kv, k) {
        Some(i) => {
            crate::str_map::lemma_key_pos_valid(kv, k);
            assert forall|x: Seq<char>| keys_of(after).to_set().contains(x) <==> keys_of(kv).to_set().insert(k).contains(x) by {
                if keys_of(after).to_set().contains(x) {
                    let j = choose|j: int| 0 <= j < keys_of(after).len() && keys_of(after)[j] == x;
                    if j != i {
                        assert(keys_of(kv)[j] == x);
                    }
                }
                if keys_of(kv).to_set().contains(x) {
                    let j = choose|j: int| 0 <= j < keys_of(kv).len() && keys_of(kv)[j] == x;
                    if j != i {
                        assert(keys_of(after)[j] == x);
                    } else {
                        assert(keys_of(after)[i] == k);
                    }
                }
                if x == k {
                    assert(keys_of(after)[i] == k);
                }
            }
        },
        None => {
            assert(keys_of(after) =~= keys_of(kv).push(k));
            keys_of(kv).lemma_push_to_set_commute(k);
        },
    }
    assert(keys_of(after).to_set() =~= keys_of(kv).to_set().insert(k));
}

impl Default for IngestTracker {
    fn default() -> (r: Self)
        ensures
            r.paths() == Set::<Seq<char>>::empty(),
            !r.has_ingested(),
    {
        Self::new()
    }
}

/// Tool: Ingest files from import folder.
#[derive(Debug, Clone)]
pub struct IngestFilesInput {
    pub folder: Option<String>,
    pub file_path: Option<String>,
    /// Alias for `file_path`, given as a list
    pub file_paths_alias: Option<Vec<String>>,
    pub limit: Option<usize>,
    pub chunk_size: Option<usize>,
    pub memory_type: Option<String>,
    /// Timeout in seconds for the entire ingestion operation (default: 60)
    pub timeout_seconds: Option<u64>,
    /// Search subfolders recursively (default: true)
    pub recursive: Option<bool>,
    /// Force re-ingestion of already-ingested files (default: false)
    pub force: Option<bool>,
    /// Return a compact summary instead of full verbose output (default: false)
    pub summary_only: Option<bool>,
}

impl IngestFilesInput {
    /// The file to ingest: `file_path`, else the first of `file_paths_alias`.
    pub fn get_file_path(&self) -> (r: Option<&str>)
        ensures
            match self.file_path {
                Some(fp) => r matches Some(s) && s@ == fp@,
                None => match self.file_paths_alias {
                    Some(fps) => if fps@.len() > 0 {
                        r matches Some(s) && s@ == fps@[0]@
                    } else {
                        r is None
                    },
                    None => r is None,
                },
            },
    {
        if let Some(fp) = &self.file_path {
            return Some(fp.as_str());
        }
        if let Some(fps) = &self.file_paths_alias {
            if fps.len() > 0 {
                return Some(fps[0].as_str());
            }
        }
        None
    }
}

/// Tool: List files ready for import.
#[derive(Debug, Clone)]
pub struct ListImportableInput {
    pub folder: Option<String>,
    pub limit: Option<usize>,
    /// Search subfolders recursively (default: true)
    pub recursive: Option<bool>,
    /// List all files without limit (default: false)
    pub list_all: Option<bool>,
}

/// Tool: Transcribe an audio file.
#[derive(Debug, Clone)]
pub struct TranscribeAudioInput {
    pub path: String,
    /// Whether to store the transcription as memory (default: true)
    pub store_as_memory: Option<bool>,
}

/// Tool: Delete successfully imported files.
#[derive(Debug, Clone)]
pub struct DeleteIngestedFilesInput {
    pub files: Vec<String>,
    pub confirmation: String,
}

/// Tool: List files that were successfully ingested.
#[derive(Debug, Clone)]
pub struct ListIngestedFilesInput {
    pub folder: Option<String>,
    pub limit: Option<usize>,
    /// Search subfolders recursively (default: true)
    pub recursive: Option<bool>,
}

/// Result of ingesting a single file.
#[derive(Debug, Clone)]
pub struct IngestResult {
    pub filename: String,
    pub file_path: String,
    pub success: bool,
    pub chunks_created: usize,
    pub chunk_size_used: usize,
    pub memory_ids: Vec<String>,
    pub error: Option<String>,
    pub remaining_count: usize,
}

/// Summary of an ingestion operation.
#[derive(Debug, Clone)]
pub struct IngestSummary {
    pub total_files: usize,
    pub successful: usize,
    pub failed: usize,
    pub total_chunks: usize,
    pub results: Vec<IngestResult>,
}


/// The chunk size to use: the one asked for, or when none (0) is asked
/// for, one chosen by file size: 8000 above a megabyte, 2000 above ten
/// kilobytes, else 1000.
pub fn recommended_chunk_size(chunk_size: usize, file_size: u64) -> (r: usize)
    ensures
        r == if chunk_size != 0 {
            chunk_size
        } else if file_size > 1_000_000 {
            8000
        } else if file_size > 10_000 {
            2000
        } else {
            1000
        },
{
    if chunk_size != 0 {
        chunk_size
    } else if file_size > 1_000_000 {
        8000
    } else if file_size > 10_000 {
        2000
    } else {
        1000
    }
}

/// Whether a deletion was confirmed: the answer is "yes" or "confirm", in
/// any case.
pub fn deletion_confirmed(confirmation: &str) -> (r: bool)
    ensures
        r == (crate::text::spec_to_lowercase(confirmation@) == "yes"@
            || crate::text::spec_to_lowercase(confirmation@) == "confirm"@),
{
    let lower = crate::text::to_lowercase(confirmation);
    str_eq(lower.as_str(), "yes") || str_eq(lower.as_str(), "confirm")
}

} // verus!

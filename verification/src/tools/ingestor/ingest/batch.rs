//! Ingesting a batch of files from the import folder: which files are taken,
//! what each file's outcome does to the batch, and the summary reported.
//!
//! Reading files, storing memories and the clock are the caller's part; it
//! hands in what it found and what happened.

use vstd::prelude::*;
use crate::text::{append_chars, append_decimal, decimal, from_chars, owned, string_views, to_chars};
use crate::tools::ingestor::ingest::IngestResult;

verus! {

/// A file found for import: where it is, its size and kind, why it cannot
/// be ingested (if it cannot), and whether it was ingested recently.
#[derive(Debug, Clone)]
pub struct FoundFile {
    pub path: String,
    pub filename: String,
    pub size: u64,
    pub file_type: String,
    pub skip_reason: Option<String>,
    pub recently_ingested: bool,
}

/// Which files of a batch are skipped, were already ingested, or are to be
/// processed now.
#[derive(Debug)]
pub struct BatchPlan {
    pub skipped: Vec<FoundFile>,
    pub already_ingested: Vec<FoundFile>,
    pub to_process: Vec<FoundFile>,
}

/// The file has a reason not to be ingested.
pub open spec fn is_skipped() -> spec_fn(FoundFile) -> bool {
    |f: FoundFile| f.skip_reason is Some
}

/// The file can be ingested but was ingested recently, and re-ingestion is
/// not forced.
pub open spec fn is_already_ingested(force: bool) -> spec_fn(FoundFile) -> bool {
    |f: FoundFile| f.skip_reason is None && !force && f.recently_ingested
}

/// The file is to be ingested (before the limit is applied).
pub open spec fn is_pending(force: bool) -> spec_fn(FoundFile) -> bool {
    |f: FoundFile| f.skip_reason is None && !(!force && f.recently_ingested)
}

/// `s` cut to at most `n` items.
pub open spec fn first_n<T>(s: Seq<T>, n: nat) -> Seq<T> {
    s.take(
        if n < s.len() {
            n as int
        } else {
            s.len() as int
        },
    )
}

/// Split the files found: those with a skip reason; those ingested recently
/// (unless `force`); and the first `limit` of the rest, to process now. Each
/// part keeps the order in which the files were found.
pub fn plan_batch(files: Vec<FoundFile>, force: bool, limit: usize) -> (r: BatchPlan)
    ensures
        r.skipped@ == files@.filter(is_skipped()),
        r.already_ingested@ == files@.filter(is_already_ingested(force)),
        r.to_process@ == first_n(files@.filter(is_pending(force)), limit as nat),
{
    let ghost all = files@;
    let mut skipped: Vec<FoundFile> = Vec::new();
    let mut already: Vec<FoundFile> = Vec::new();
    let mut pending: Vec<FoundFile> = Vec::new();
    let mut rest = files;
    let n = rest.len();
    let mut i: usize = 0;
    while rest.len() > 0
        invariant
            all.len() == n,
            i + rest@.len() == all.len(),
            rest@ == all.skip(i as int),
            skipped@ == all.take(i as int).filter(is_skipped()),
            already@ == all.take(i as int).filter(is_already_ingested(force)),
            pending@ == all.take(i as int).filter(is_pending(force)),
        decreases rest@.len(),
    {
        let f = rest.remove(0);
        proof {
            assert(f == all[i as int]);
            assert(all.take(i + 1).drop_last() =~= all.take(i as int));
            reveal_with_fuel(Seq::filter, 1);
            assert(all.skip(i + 1) =~= all.skip(i as int).drop_first());
        }
        if f.skip_reason.is_some() {
            skipped.push(f);
        } else if !force && f.recently_ingested {
            already.push(f);
        } else {
            pending.push(f);
        }
        i += 1;
    }
    assert(all.take(i as int) =~= all);
    let ghost full = pending@;
    pending.truncate(limit);
    assert(pending@ =~= first_n(full, limit as nat));
    BatchPlan { skipped, already_ingested: already, to_process: pending }
}

/// Every file found is in exactly one part of a plan: skipped, already
/// ingested, or pending (before the limit is applied).
pub proof fn lemma_plan_partitions(files: Seq<FoundFile>, force: bool)
    ensures
        files.filter(is_skipped()).len() + files.filter(is_already_ingested(force)).len()
            + files.filter(is_pending(force)).len() == files.len(),
    decreases files.len(),
{
    reveal_with_fuel(Seq::filter, 1);
    if files.len() > 0 {
        lemma_plan_partitions(files.drop_last(), force);
    }
}

/// What came of ingesting one file.
#[derive(Debug)]
pub enum FileOutcome {
    /// The ingestion ran and reported this result.
    Finished(IngestResult),
    /// The ingestion failed with this error text.
    Failed(String),
    /// The ingestion did not finish in time.
    TimedOut,
}

/// The progress of a batch: the results so far, the counts, and whether a
/// file timed out.
#[derive(Debug)]
pub struct BatchProgress {
    pub results: Vec<IngestResult>,
    pub successful: usize,
    pub failed: usize,
    pub total_chunks: usize,
    pub timeout_occurred: bool,
}

/// "Ingestion timed out after <n> seconds. Try increasing timeout_seconds."
pub open spec fn batch_timeout_message(timeout_secs: u64) -> Seq<char> {
    "Ingestion timed out after "@ + decimal(timeout_secs as nat)
        + " seconds. Try increasing timeout_seconds."@
}

/// The result recorded for a file that failed: nothing stored, with the
/// error text.
pub open spec fn failed_result(r: IngestResult, file: FoundFile, chunk_size: usize, error: Seq<char>) -> bool {
    &&& r.filename@ == file.filename@
    &&& r.file_path@ == file.path@
    &&& !r.success
    &&& r.chunks_created == 0
    &&& r.chunk_size_used == chunk_size
    &&& r.memory_ids@.len() == 0
    &&& r.error matches Some(e) && e@ == error
    &&& r.remaining_count == 0
}

/// Room in the counters for one more file.
pub open spec fn can_take(p: BatchProgress, outcome: FileOutcome) -> bool {
    &&& p.successful < usize::MAX
    &&& p.failed < usize::MAX
    &&& outcome matches FileOutcome::Finished(r) ==> p.total_chunks + r.chunks_created <= usize::MAX
}

fn failure_result(file: &FoundFile, chunk_size: usize, error: String) -> (r: IngestResult)
    ensures
        failed_result(r, *file, chunk_size, error@),
{
    IngestResult {
        filename: file.filename.clone(),
        file_path: file.path.clone(),
        success: false,
        chunks_created: 0,
        chunk_size_used: chunk_size,
        memory_ids: Vec::new(),
        error: Some(error),
        remaining_count: 0,
    }
}

impl BatchProgress {
    /// Nothing processed yet.
    pub fn new() -> (p: Self)
        ensures
            p.results@.len() == 0,
            p.successful == 0,
            p.failed == 0,
            p.total_chunks == 0,
            !p.timeout_occurred,
    {
        BatchProgress {
            results: Vec::new(),
            successful: 0,
            failed: 0,
            total_chunks: 0,
            timeout_occurred: false,
        }
    }

    /// Take the outcome of one file and say whether to go on with the next.
    /// A finished archive counts as a success whatever it reports, and its
    /// chunks are not added up; another finished file counts by what it
    /// reports. A failure or a timeout records a failed result; a timeout
    /// also stops the batch.
    pub fn record(&mut self, file: &FoundFile, outcome: FileOutcome, chunk_size: usize, timeout_secs: u64) -> (go_on: bool)
        requires
            can_take(*old(self), outcome),
        ensures
            match outcome {
                FileOutcome::Finished(r) => {
                    &&& go_on
                    &&& final(self).results@ == old(self).results@.push(r)
                    &&& final(self).timeout_occurred == old(self).timeout_occurred
                    &&& if file.file_type@ == "archive"@ {
                        &&& final(self).successful == old(self).successful + 1
                        &&& final(self).failed == old(self).failed
                        &&& final(self).total_chunks == old(self).total_chunks
                    } else if r.success {
                        &&& final(self).successful == old(self).successful + 1
                        &&& final(self).failed == old(self).failed
                        &&& final(self).total_chunks == old(self).total_chunks + r.chunks_created
                    } else {
                        &&& final(self).successful == old(self).successful
                        &&& final(self).failed == old(self).failed + 1
                        &&& final(self).total_chunks == old(self).total_chunks
                    }
                },
                FileOutcome::Failed(e) => {
                    &&& go_on
                    &&& final(self).results@.len() == old(self).results@.len() + 1
                    &&& final(self).results@.drop_last() == old(self).results@
                    &&& failed_result(final(self).results@.last(), *file, chunk_size, e@)
                    &&& final(self).successful == old(self).successful
                    &&& final(self).failed == old(self).failed + 1
                    &&& final(self).total_chunks == old(self).total_chunks
                    &&& final(self).timeout_occurred == old(self).timeout_occurred
                },
                FileOutcome::TimedOut => {
                    &&& !go_on
                    &&& final(self).results@.len() == old(self).results@.len() + 1
                    &&& final(self).results@.drop_last() == old(self).results@
                    &&& failed_result(
                        final(self).results@.last(),
                        *file,
                        chunk_size,
                        batch_timeout_message(timeout_secs),
                    )
                    &&& final(self).successful == old(self).successful
                    &&& final(self).failed == old(self).failed + 1
                    &&& final(self).total_chunks == old(self).total_chunks
                    &&& final(self).timeout_occurred
                },
            },
    {
        let is_archive = crate::text::str_eq(file.file_type.as_str(), "archive");
        proof {
            reveal_strlit("archive");
        }
        match outcome {
            FileOutcome::Finished(r) => {
                if is_archive {
                    self.successful = self.successful + 1;
                } else if r.success {
                    self.successful = self.successful + 1;
                    self.total_chunks = self.total_chunks + r.chunks_created;
                } else {
                    self.failed = self.failed + 1;
                }
                self.results.push(r);
                true
            },
            FileOutcome::Failed(e) => {
                self.failed = self.failed + 1;
                let ghost before = self.results@;
                self.results.push(failure_result(file, chunk_size, e));
                assert(self.results@.drop_last() =~= before);
                true
            },
            FileOutcome::TimedOut => {
                self.timeout_occurred = true;
                self.failed = self.failed + 1;
                let mut m = to_chars("Ingestion timed out after ");
                append_decimal(&mut m, timeout_secs);
                append_chars(&mut m, to_chars(" seconds. Try increasing timeout_seconds.").as_slice());
                let ghost before = self.results@;
                self.results.push(failure_result(file, chunk_size, from_chars(m.as_slice())));
                assert(self.results@.drop_last() =~= before);
                false
            },
        }
    }
}

/// The result succeeded.
pub open spec fn succeeded() -> spec_fn(IngestResult) -> bool {
    |r: IngestResult| r.success
}

/// The paths of the results that succeeded, in order.
pub open spec fn succeeded_paths(results: Seq<IngestResult>) -> Seq<Seq<char>> {
    results.filter(succeeded()).map_values(|r: IngestResult| r.file_path@)
}

/// The paths of the files ingested successfully, in order: those to record
/// as ingested and to offer for deletion.
pub fn successfully_ingested(results: &Vec<IngestResult>) -> (r: Vec<String>)
    ensures
        string_views(r@) == succeeded_paths(results@),
{
    let mut r: Vec<String> = Vec::new();
    let mut i: usize = 0;
    while i < results.len()
        invariant
            i <= results@.len(),
            string_views(r@) == succeeded_paths(results@.take(i as int)),
        decreases results@.len() - i,
    {
        proof {
            assert(results@.take(i + 1).drop_last() =~= results@.take(i as int));
            reveal_with_fuel(Seq::filter, 1);
        }
        if results[i].success {
            let ghost before = r@;
            r.push(results[i].file_path.clone());
            assert(string_views(r@) =~= string_views(before).push(results@[i as int].file_path@));
            assert(results@.take(i + 1).filter(succeeded()) =~= results@.take(i as int).filter(
                succeeded(),
            ).push(results@[i as int]));
        }
        i += 1;
    }
    assert(results@.take(i as int) =~= results@);
    r
}

/// The summary of a batch: "Added <n> chunks to memory from '<file>'" for
/// one success (the first successful result's file, else "file"), else
/// "Added <n> chunks to memory from <k> files".
pub open spec fn batch_summary(successful: usize, total_chunks: usize, results: Seq<IngestResult>) -> Seq<char> {
    if successful == 1 {
        "Added "@ + decimal(total_chunks as nat) + " chunks to memory from '"@ + (if results.filter(
            succeeded(),
        ).len() > 0 {
            results.filter(succeeded())[0].filename@
        } else {
            "file"@
        }) + "'"@
    } else {
        "Added "@ + decimal(total_chunks as nat) + " chunks to memory from "@ + decimal(
            successful as nat,
        ) + " files"@
    }
}

fn first_success(results: &Vec<IngestResult>) -> (r: Option<usize>)
    ensures
        match r {
            Some(i) => i < results@.len() && results@[i as int].success && results@.take(
                i as int,
            ).filter(succeeded()).len() == 0,
            None => results@.filter(succeeded()).len() == 0,
        },
{
    let mut i: usize = 0;
    while i < results.len()
        invariant
            i <= results@.len(),
            results@.take(i as int).filter(succeeded()).len() == 0,
        decreases results@.len() - i,
    {
        proof {
            assert(results@.take(i + 1).drop_last() =~= results@.take(i as int));
            reveal_with_fuel(Seq::filter, 1);
        }
        if results[i].success {
            return Some(i);
        }
        i += 1;
    }
    assert(results@.take(i as int) =~= results@);
    None
}

proof fn lemma_first_of_filter(s: Seq<IngestResult>, i: int)
    requires
        0 <= i < s.len(),
        s[i].success,
        s.take(i).filter(succeeded()).len() == 0,
    ensures
        s.filter(succeeded()).len() > 0,
        s.filter(succeeded())[0] == s[i],
    decreases s.len(),
{
    reveal_with_fuel(Seq::filter, 1);
    if i < s.len() - 1 {
        assert(s.drop_last().take(i) =~= s.take(i));
        lemma_first_of_filter(s.drop_last(), i);
        assert(s.filter(succeeded()) == if succeeded()(s.last()) {
            s.drop_last().filter(succeeded()).push(s.last())
        } else {
            s.drop_last().filter(succeeded())
        });
    } else {
        assert(s.drop_last() =~= s.take(i));
    }
}

/// The summary line of a batch; see `batch_summary`.
pub fn summary_text(p: &BatchProgress) -> (r: String)
    ensures
        r@ == batch_summary(p.successful, p.total_chunks, p.results@),
{
    let mut m = to_chars("Added ");
    append_decimal(&mut m, p.total_chunks as u64);
    if p.successful == 1 {
        append_chars(&mut m, to_chars(" chunks to memory from '").as_slice());
        match first_success(&p.results) {
            Some(i) => {
                proof {
                    lemma_first_of_filter(p.results@, i as int);
                }
                append_chars(&mut m, to_chars(p.results[i].filename.as_str()).as_slice());
            },
            None => append_chars(&mut m, to_chars("file").as_slice()),
        }
        append_chars(&mut m, to_chars("'").as_slice());
    } else {
        append_chars(&mut m, to_chars(" chunks to memory from ").as_slice());
        append_decimal(&mut m, p.successful as u64);
        append_chars(&mut m, to_chars(" files").as_slice());
    }
    from_chars(m.as_slice())
}

/// Where the first failed result is, reported when any file failed.
pub fn first_failed(p: &BatchProgress) -> (r: Option<usize>)
    ensures
        match r {
            Some(i) => {
                &&& p.failed > 0
                &&& i < p.results@.len()
                &&& !p.results@[i as int].success
                &&& forall|j: int| 0 <= j < i ==> p.results@[j].success
            },
            None => p.failed == 0 || forall|j: int| 0 <= j < p.results@.len() ==> p.results@[j].success,
        },
{
    if p.failed == 0 {
        return None;
    }
    let mut i: usize = 0;
    while i < p.results.len()
        invariant
            i <= p.results@.len(),
            p.failed > 0,
            forall|j: int| 0 <= j < i ==> p.results@[j].success,
        decreases p.results@.len() - i,
    {
        if !p.results[i].success {
            return Some(i);
        }
        i += 1;
    }
    None
}

/// What the report of a batch asks its reader, and whether the batch
/// succeeded.
#[derive(Debug)]
pub struct BatchQuestions {
    /// At least one file was ingested.
    pub success: bool,
    /// Asked when a file was ingested: whether the originals may go.
    pub ask_delete_file: Option<&'static str>,
    /// Asked when a file was skipped, else when one failed.
    pub ask_skip: Option<&'static str>,
    /// Asked when nothing was ingested but some files had been already.
    pub ask_reingest: Option<&'static str>,
}

/// The questions of a batch's report, from its plan and progress: whether
/// to delete the originals (when something was ingested); whether to skip
/// (a skipped file) or retry (a failed one); whether to ingest again (files
/// already ingested, nothing new).
pub fn batch_questions(plan: &BatchPlan, p: &BatchProgress) -> (r: BatchQuestions)
    ensures
        r.success == (p.successful > 0),
        r.ask_delete_file == (if p.successful > 0 {
            Some("Can I delete the original file to save space?")
        } else {
            None
        }),
        plan.skipped@.len() > 0 ==> r.ask_skip == Some("Skip this file and move to the next one?"),
        plan.skipped@.len() == 0 ==> r.ask_skip == (if p.failed > 0 && exists|j: int|
            0 <= j < p.results@.len() && !(#[trigger] p.results@[j]).success {
            Some("Do you want to retry ingesting this file?")
        } else {
            None
        }),
        r.ask_reingest == (if plan.already_ingested@.len() > 0 && p.successful == 0 {
            Some("This file was already ingested. Do you want to ingest it again?")
        } else {
            None
        }),
{
    let ask_skip = if plan.skipped.len() > 0 {
        Some("Skip this file and move to the next one?")
    } else {
        match first_failed(p) {
            Some(i) => {
                assert(!p.results@[i as int].success);
                Some("Do you want to retry ingesting this file?")
            },
            None => None,
        }
    };
    BatchQuestions {
        success: p.successful > 0,
        ask_delete_file: if p.successful > 0 {
            Some("Can I delete the original file to save space?")
        } else {
            None
        },
        ask_skip,
        ask_reingest: if plan.already_ingested.len() > 0 && p.successful == 0 {
            Some("This file was already ingested. Do you want to ingest it again?")
        } else {
            None
        },
    }
}

/// Why a single file was not ingested.
#[derive(Debug)]
pub enum SingleIngestError {
    /// The ingestion failed with this error text.
    Failed(String),
    /// The ingestion did not finish in time.
    TimedOut,
    /// Neither the path nor the path inside the import folder exists.
    NotFound,
}

/// The message for a single file that was not ingested.
pub open spec fn single_ingest_message(e: SingleIngestError, file_path: Seq<char>, timeout_secs: u64) -> Seq<char> {
    match e {
        SingleIngestError::Failed(t) => "Failed to ingest file: "@ + t@,
        SingleIngestError::TimedOut => "Ingestion timed out after "@ + decimal(timeout_secs as nat)
            + " seconds. Try increasing timeout_seconds for large files."@,
        SingleIngestError::NotFound => "File not found: "@ + file_path,
    }
}

/// The message for a single file that was not ingested; see
/// `single_ingest_message`.
pub fn single_ingest_error_message(e: &SingleIngestError, file_path: &str, timeout_secs: u64) -> (r: String)
    ensures
        r@ == single_ingest_message(*e, file_path@, timeout_secs),
{
    let mut m: Vec<char>;
    match e {
        SingleIngestError::Failed(t) => {
            m = to_chars("Failed to ingest file: ");
            append_chars(&mut m, to_chars(t.as_str()).as_slice());
        },
        SingleIngestError::TimedOut => {
            m = to_chars("Ingestion timed out after ");
            append_decimal(&mut m, timeout_secs);
            append_chars(
                &mut m,
                to_chars(" seconds. Try increasing timeout_seconds for large files.").as_slice(),
            );
        },
        SingleIngestError::NotFound => {
            m = to_chars("File not found: ");
            append_chars(&mut m, to_chars(file_path).as_slice());
        },
    }
    from_chars(m.as_slice())
}

} // verus!

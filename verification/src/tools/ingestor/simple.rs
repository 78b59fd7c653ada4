//! Single-folder file ingestion: files are typed by extension and their
//! text is cut into overlapping byte ranges.

pub mod definitions;

use vstd::prelude::*;
use crate::models::MemoryType;
use crate::tools::ingestor::paths::path_extension;
use crate::text::{to_chars, str_eq, string_views};
use vstd::utf8::{encode_utf8, is_char_boundary};
use vstd::string::StringSliceAdditionalSpecFns;

verus! {

/// Default folder name for files to import.
pub const DEFAULT_IMPORT_FOLDER: &'static str = "files_to_import";

/// Default chunk size for text splitting.
pub const DEFAULT_CHUNK_SIZE: usize = 1000;

/// Default overlap between chunks.
pub const DEFAULT_CHUNK_OVERLAP: usize = 100;

/// Tool: Ingest files from the import folder.
#[derive(Debug, Clone)]
pub struct IngestFilesInput {
    /// Path to the folder containing files to import (defaults to 'files_to_import')
    pub folder: Option<String>,
    /// Maximum number of files to process
    pub limit: Option<usize>,
    /// Chunk size for text splitting
    pub chunk_size: Option<usize>,
    /// Whether to delete files after successful ingestion
    pub delete_after: Option<bool>,
    /// Memory type to use for ingested content
    pub memory_type: Option<String>,
}

/// Tool: List files ready for import.
#[derive(Debug, Clone)]
pub struct ListImportableInput {
    /// Path to the folder to check (defaults to 'files_to_import')
    pub folder: Option<String>,
}

/// Tool: Transcribe an audio file.
#[derive(Debug, Clone)]
pub struct TranscribeAudioInput {
    /// Path to the audio file
    pub path: String,
    /// Output path for the transcription JSON file
    pub output: Option<String>,
}

/// Result of ingesting a single file.
#[derive(Debug, Clone)]
pub struct IngestResult {
    pub filename: String,
    pub success: bool,
    pub chunks_created: usize,
    pub memory_ids: Vec<String>,
    pub error: Option<String>,
}

/// Summary of an ingestion operation.
#[derive(Debug, Clone)]
pub struct IngestSummary {
    pub total_files: usize,
    pub successful: usize,
    pub failed: usize,
    pub total_chunks: usize,
    pub results: Vec<IngestResult>,
}

/// A file ready for import.
#[derive(Debug, Clone)]
pub struct ImportableFile {
    pub path: String,
    pub filename: String,
    pub size: u64,
    pub file_type: String,
}

/// The kind of file for a (lowercased) extension.
pub open spec fn file_kind(ext: Seq<char>) -> Seq<char> {
    if ext == "txt"@ || ext == "md"@ || ext == "rst"@ || ext == "csv"@ || ext == "log"@ || ext
        == "xml"@ || ext == "html"@ || ext == "htm"@ {
        "text"@
    } else if ext == "json"@ || ext == "jsonl"@ {
        "json"@
    } else if ext == "pdf"@ {
        "pdf"@
    } else if ext == "zip"@ || ext == "tar"@ || ext == "gz"@ || ext == "tgz"@ || ext == "tar.gz"@ {
        "archive"@
    } else if ext == "mp3"@ || ext == "wav"@ || ext == "m4a"@ || ext == "flac"@ || ext == "ogg"@
        || ext == "aac"@ {
        "audio"@
    } else {
        "unknown"@
    }
}

/// One of the file kinds.
pub open spec fn is_file_kind(k: Seq<char>) -> bool {
    k == "text"@ || k == "json"@ || k == "pdf"@ || k == "archive"@ || k == "audio"@ || k == "unknown"@
}

/// The kind of file for an extension, ignoring case; see `file_kind`.
pub fn file_type_for_extension(ext: &str) -> (r: String)
    ensures
        r@ == file_kind(crate::text::spec_to_lowercase(ext@)),
{
    let lower = crate::text::to_lowercase(ext);
    let e = lower.as_str();
    let k = if str_eq(e, "txt") || str_eq(e, "md") || str_eq(e, "rst") || str_eq(e, "csv") || str_eq(e, "log")
        || str_eq(e, "xml") || str_eq(e, "html") || str_eq(e, "htm") {
        "text"
    } else if str_eq(e, "json") || str_eq(e, "jsonl") {
        "json"
    } else if str_eq(e, "pdf") {
        "pdf"
    } else if str_eq(e, "zip") || str_eq(e, "tar") || str_eq(e, "gz") || str_eq(e, "tgz") || str_eq(e, "tar.gz") {
        "archive"
    } else if str_eq(e, "mp3") || str_eq(e, "wav") || str_eq(e, "m4a") || str_eq(e, "flac") || str_eq(e, "ogg")
        || str_eq(e, "aac") {
        "audio"
    } else {
        "unknown"
    };
    crate::text::owned(k)
}

/// Detect a file's kind from its extension; see `file_type_for_extension`.
/// For a plain path the kind is that of its extension (none counting as
/// empty); for other paths the extension comes from the platform's path
/// rules, and only that the result is a kind is stated.
pub fn detect_file_type(path: &str) -> (r: String)
    ensures
        is_file_kind(r@),
        crate::tools::ingestor::paths::plain_path(path@) ==> r@ == file_kind(
            crate::text::spec_to_lowercase(crate::tools::ingestor::paths::plain_extension_text(path@)),
        ),
{
    let ext = match path_extension(path) {
        Some(e) => e,
        None => String::new(),
    };
    proof {
        reveal_strlit("");
    }
    let r = file_type_for_extension(ext.as_str());
    proof {
        let l = crate::text::spec_to_lowercase(ext@);
        assert(is_file_kind(file_kind(l)));
    }
    r
}

/// The memory kind for a (lowercased) name: file, conversation, code or
/// note; anything else is a file.
pub open spec fn memory_type_for(s: Seq<char>) -> MemoryType {
    crate::tools::ingestor::ingest::ingestion::ingested_type_for(s)
}

/// Parse a memory kind, ignoring case; see `memory_type_for`.
pub fn parse_memory_type(s: &str) -> (r: MemoryType)
    ensures
        r == memory_type_for(crate::text::spec_to_lowercase(s@)),
{
    crate::tools::ingestor::ingest::ingestion::parse_memory_type(s)
}

/// The import folder: the given one, else `files_to_import`.
pub fn get_import_folder(folder: Option<&str>) -> (r: String)
    ensures
        r@ == match folder {
            Some(f) => f@,
            None => DEFAULT_IMPORT_FOLDER@,
        },
{
    match folder {
        Some(f) => crate::text::owned(f),
        None => crate::text::owned(DEFAULT_IMPORT_FOLDER),
    }
}

/// The byte ranges of overlapping chunks: see
/// `text_extractor::chunk_bounds`, over bytes.
pub open spec fn byte_chunk_bounds(len: nat, size: nat, overlap: nat) -> Seq<(int, int)> {
    crate::tools::ingestor::text_extractor::chunk_bounds(len as int, 0, size as int, overlap as int)
}

/// Every chunk boundary falls between characters.
pub open spec fn bounds_on_chars(b: Seq<u8>, size: nat, overlap: nat) -> bool {
    let bs = byte_chunk_bounds(b.len(), size, overlap);
    forall|i: int| 0 <= i < bs.len() ==> is_char_boundary(b, #[trigger] bs[i].0) && is_char_boundary(b, bs[i].1)
}

/// Byte chunks of a text: the whole text when it is at most `size` bytes
/// long, otherwise overlapping ranges of at most `size` bytes, each
/// starting `overlap` bytes before the end of the previous one.
pub open spec fn byte_chunks(b: Seq<u8>, size: nat, overlap: nat) -> Seq<Seq<u8>> {
    if b.len() <= size {
        seq![b]
    } else {
        byte_chunk_bounds(b.len(), size, overlap).map_values(|p: (int, int)| b.subrange(p.0, p.1))
    }
}

/// Chunk text into byte ranges with overlap; see `byte_chunks`. A longer
/// text needs an overlap smaller than the chunk size (else the ranges do
/// not advance) and range ends on character boundaries (else the text
/// cannot be cut there).
pub fn chunk_text(text: &str, chunk_size: usize, overlap: usize) -> (r: Vec<String>)
    requires
        encode_utf8(text@).len() > chunk_size ==> overlap < chunk_size && bounds_on_chars(
            encode_utf8(text@),
            chunk_size as nat,
            overlap as nat,
        ),
    ensures
        r@.len() == byte_chunks(encode_utf8(text@), chunk_size as nat, overlap as nat).len(),
        forall|i: int| 0 <= i < r@.len() ==> encode_utf8(#[trigger] r@[i]@) == byte_chunks(
            encode_utf8(text@),
            chunk_size as nat,
            overlap as nat,
        )[i],
{
    let b = text.as_bytes();
    let n = b.len();
    let ghost bytes = encode_utf8(text@);
    assert(b@ == bytes);
    if n <= chunk_size {
        let mut v: Vec<String> = Vec::new();
        v.push(crate::text::owned(text));
        return v;
    }
    let ghost bounds = byte_chunk_bounds(n as nat, chunk_size as nat, overlap as nat);
    let ghost all = bounds.map_values(|p: (int, int)| bytes.subrange(p.0, p.1));
    let mut chunks: Vec<String> = Vec::new();
    let mut start: usize = 0;
    let mut k: usize = 0;
    while start < n
        invariant
            n == bytes.len(),
            b@ == bytes,
            text.spec_bytes() == bytes,
            overlap < chunk_size,
            bounds_on_chars(bytes, chunk_size as nat, overlap as nat),
            bounds == byte_chunk_bounds(n as nat, chunk_size as nat, overlap as nat),
            all == bounds.map_values(|p: (int, int)| bytes.subrange(p.0, p.1)),
            start <= n,
            k == chunks@.len(),
            k <= bounds.len(),
            start < n ==> bounds.skip(k as int) == crate::tools::ingestor::text_extractor::chunk_bounds(
                n as int,
                start as int,
                chunk_size as int,
                overlap as int,
            ),
            start >= n ==> k == bounds.len(),
            forall|i: int| 0 <= i < k ==> encode_utf8(#[trigger] chunks@[i]@) == all[i],
        decreases n - start,
    {
        let ghost rest = crate::tools::ingestor::text_extractor::chunk_bounds(n as int, start as int, chunk_size as int, overlap as int);
        let end = if chunk_size < n - start { start + chunk_size } else { n };
        proof {
            crate::tools::ingestor::text_extractor::lemma_chunk_bounds_step(n as int, start as int, chunk_size as int, overlap as int);
        }
        assert(rest[0] == (start as int, end as int));
        assert(bounds.skip(k as int).len() == bounds.len() - k);
        assert(bounds.skip(k as int)[0] == bounds[k as int]);
        assert(k < bounds.len());
        assert(is_char_boundary(bytes, start as int) && is_char_boundary(bytes, end as int)) by {
            let bs = byte_chunk_bounds(bytes.len(), chunk_size as nat, overlap as nat);
            assert(bs[k as int] == (start as int, end as int));
            assert(bs[k as int].0 == start as int);
        }
        let (_, tail) = text.split_at(start);
        proof {
            vstd::utf8::encode_utf8_valid_utf8(text@);
            assert(tail.spec_bytes() =~= bytes.subrange(start as int, n as int));
            lemma_boundary_in_suffix(bytes, start as int, end as int);
        }
        let (piece, _) = tail.split_at(end - start);
        assert(piece.spec_bytes() =~= bytes.subrange(start as int, end as int));
        chunks.push(crate::text::owned(piece));
        proof {
            vstd::utf8::encode_utf8_decode_utf8(piece@);
        }
        k = chunks.len();
        if end >= n {
            start = n;
        } else {
            proof {
                assert(bounds.skip(k as int) =~= bounds.skip(k - 1).drop_first());
            }
            start = end - overlap;
        }
    }
    assert(chunks@.len() == all.len());
    chunks
}

/// A boundary of a valid text is a boundary of its suffix from an
/// earlier boundary.
proof fn lemma_boundary_in_suffix(bytes: Seq<u8>, start: int, idx: int)
    requires
        vstd::utf8::valid_utf8(bytes),
        0 <= start <= idx <= bytes.len(),
        is_char_boundary(bytes, start),
        is_char_boundary(bytes, idx),
    ensures
        is_char_boundary(bytes.subrange(start, bytes.len() as int), idx - start),
{
    vstd::utf8::valid_utf8_split(bytes, start);
    let tail = bytes.subrange(start, bytes.len() as int);
    if idx == bytes.len() {
        vstd::utf8::is_char_boundary_start_end_of_seq(tail);
    } else if idx > start {
        vstd::utf8::is_char_boundary_iff_not_is_continuation_byte(bytes, idx);
        vstd::utf8::is_char_boundary_iff_not_is_continuation_byte(tail, idx - start);
        assert(tail[idx - start] == bytes[idx]);
    }
}


/// How a file's text is read, by its extension.
#[derive(Debug, Clone, Copy, PartialEq, Eq, Structural)]
pub enum TextKind {
    /// Read as text.
    Text,
    /// Read as text and pretty-printed when it parses as JSON.
    Json,
    /// The printable text of a PDF.
    Pdf,
}

/// The way to read a (lowercased) extension's text, if it can be read.
pub open spec fn text_kind_of(ext: Seq<char>) -> Option<TextKind> {
    if ext == "txt"@ || ext == "md"@ || ext == "rst"@ || ext == "csv"@ || ext == "log"@
        || ext == "xml"@ || ext == "html"@ || ext == "htm"@ {
        Some(TextKind::Text)
    } else if ext == "json"@ || ext == "jsonl"@ {
        Some(TextKind::Json)
    } else if ext == "pdf"@ {
        Some(TextKind::Pdf)
    } else {
        None
    }
}

/// The text stored for a JSON file: pretty-printed when it parses (`parsed`
/// is what parsing the content gave), else the content as it is.
pub fn json_file_text(content: &str, parsed: Option<&crate::json::JsonValue>) -> (r: String)
    ensures
        r@ == match parsed {
            Some(v) => crate::json::pretty_text(v@, 0),
            None => content@,
        },
{
    match parsed {
        Some(v) => crate::json::to_pretty_string(v),
        None => crate::text::owned(content),
    }
}

/// How to read a file with this extension, ignoring case; other
/// extensions are refused with "Unsupported file type: <extension>", the
/// extension in lower case.
pub fn text_kind_for(extension: &str) -> (r: Result<TextKind, String>)
    ensures
        match text_kind_of(crate::text::spec_to_lowercase(extension@)) {
            Some(k) => r == Ok::<TextKind, String>(k),
            None => r matches Err(m) && m@ == "Unsupported file type: "@
                + crate::text::spec_to_lowercase(extension@),
        },
{
    let lower = crate::text::to_lowercase(extension);
    let e = lower.as_str();
    if str_eq(e, "txt") || str_eq(e, "md") || str_eq(e, "rst") || str_eq(e, "csv") || str_eq(e, "log")
        || str_eq(e, "xml") || str_eq(e, "html") || str_eq(e, "htm") {
        Ok(TextKind::Text)
    } else if str_eq(e, "json") || str_eq(e, "jsonl") {
        Ok(TextKind::Json)
    } else if str_eq(e, "pdf") {
        Ok(TextKind::Pdf)
    } else {
        let mut m = crate::text::owned("Unsupported file type: ");
        m.append(e);
        Err(m)
    }
}

/// A byte kept from a PDF: printable ASCII, newline, carriage return or tab.
pub open spec fn kept_pdf_byte() -> spec_fn(u8) -> bool {
    |b: u8| (32 <= b && b <= 126) || b == 10 || b == 13 || b == 9
}

/// The kept bytes of a PDF, as characters.
pub open spec fn printable_chars(bytes: Seq<u8>) -> Seq<char> {
    bytes.filter(kept_pdf_byte()).map_values(|b: u8| b as char)
}

/// A line kept from a PDF: not empty and not starting with `%`, `<<` or `>>`.
pub open spec fn kept_pdf_line() -> spec_fn(Seq<char>) -> bool {
    |l: Seq<char>| l.len() > 0 && !crate::text::starts_with(l, "%"@)
        && !crate::text::starts_with(l, "<<"@) && !crate::text::starts_with(l, ">>"@)
}

/// The readable text of a PDF's raw bytes: its printable characters, the
/// kept lines joined by newlines.
pub open spec fn printable_pdf_text(bytes: Seq<u8>) -> Seq<char> {
    crate::text::join(crate::text::lines(printable_chars(bytes)).filter(kept_pdf_line()), "\n"@)
}

/// The readable text of a PDF's raw bytes; see `printable_pdf_text`.
/// Text that is blank is refused with "No readable text found in PDF".
pub fn pdf_printable_text(bytes: &[u8]) -> (r: Result<String, String>)
    ensures
        crate::text::trim(printable_pdf_text(bytes@)).len() == 0 ==> (r matches Err(m) && m@
            == "No readable text found in PDF"@),
        crate::text::trim(printable_pdf_text(bytes@)).len() > 0 ==> (r matches Ok(t) && t@
            == printable_pdf_text(bytes@)),
{
    let mut chars: Vec<char> = Vec::new();
    let mut i: usize = 0;
    while i < bytes.len()
        invariant
            i <= bytes@.len(),
            chars@ == printable_chars(bytes@.take(i as int)),
        decreases bytes@.len() - i,
    {
        proof {
            assert(bytes@.take(i + 1).drop_last() =~= bytes@.take(i as int));
            reveal_with_fuel(Seq::filter, 1);
        }
        let b = bytes[i];
        if (32 <= b && b <= 126) || b == 10 || b == 13 || b == 9 {
            let ghost before = chars@;
            chars.push(b as char);
            assert(chars@ =~= printable_chars(bytes@.take(i + 1)));
        } else {
            assert(chars@ =~= printable_chars(bytes@.take(i + 1)));
        }
        i += 1;
    }
    assert(bytes@.take(bytes@.len() as int) =~= bytes@);
    let ls = crate::text::lines_chars(chars.as_slice());
    let ghost all = crate::text::views_of(ls@);
    let pct = to_chars("%");
    let lt = to_chars("<<");
    let gt = to_chars(">>");
    let mut kept: Vec<Vec<char>> = Vec::new();
    let mut k: usize = 0;
    while k < ls.len()
        invariant
            k <= ls@.len(),
            all == crate::text::views_of(ls@),
            pct@ == "%"@,
            lt@ == "<<"@,
            gt@ == ">>"@,
            crate::text::views_of(kept@) == all.take(k as int).filter(kept_pdf_line()),
        decreases ls@.len() - k,
    {
        proof {
            assert(all.take(k + 1).drop_last() =~= all.take(k as int));
            reveal_with_fuel(Seq::filter, 1);
            assert(all[k as int] == ls@[k as int]@);
        }
        let l = &ls[k];
        let keep = l.len() > 0 && !crate::text::starts_with_chars(l.as_slice(), pct.as_slice())
            && !crate::text::starts_with_chars(l.as_slice(), lt.as_slice())
            && !crate::text::starts_with_chars(l.as_slice(), gt.as_slice());
        assert(keep == kept_pdf_line()(all[k as int]));
        if keep {
            let ghost before = crate::text::views_of(kept@);
            kept.push(ls[k].clone());
            assert(crate::text::views_of(kept@) =~= before.push(all[k as int]));
        }
        k += 1;
    }
    assert(all.take(ls@.len() as int) =~= all);
    let nl = to_chars("\n");
    let joined = crate::text::join_chars(&kept, nl.as_slice());
    assert(joined@ == printable_pdf_text(bytes@));
    let t = crate::text::trim_chars(joined.as_slice());
    if t.len() == 0 {
        Err(crate::text::owned("No readable text found in PDF"))
    } else {
        Ok(crate::text::from_chars(joined.as_slice()))
    }
}

/// The text stored for an audio file until it is transcribed.
pub open spec fn audio_placeholder(filename: Seq<char>) -> Seq<char> {
    "[Audio file: "@ + filename + "]\nThis audio file requires transcription using an external service.\nSupported transcription services:\n- OpenAI Whisper API\n- Local Whisper model\n- Azure Speech-to-Text\n- Google Speech-to-Text\n\nTo transcribe this file, run the transcribe_audio tool with the file path."@
}

/// The text stored for an audio file until it is transcribed; see
/// `audio_placeholder`.
pub fn audio_placeholder_text(filename: &str) -> (r: String)
    ensures
        r@ == audio_placeholder(filename@),
{
    let mut v = to_chars("[Audio file: ");
    crate::text::append_chars(&mut v, to_chars(filename).as_slice());
    crate::text::append_chars(&mut v, to_chars("]\nThis audio file requires transcription using an external service.\nSupported transcription services:\n- OpenAI Whisper API\n- Local Whisper model\n- Azure Speech-to-Text\n- Google Speech-to-Text\n\nTo transcribe this file, run the transcribe_audio tool with the file path.").as_slice());
    crate::text::from_chars(v.as_slice())
}

/// The stored text of chunk `index` (from zero) of `total` taken from a
/// file: `[File: <name>] [Chunk <index + 1>/<total>]`, a blank line, then
/// the chunk.
pub fn chunk_memory_content(filename: &str, index: usize, total: usize, chunk: &str) -> (r: String)
    requires
        index < usize::MAX,
    ensures
        r@ == "[File: "@ + filename@ + "] [Chunk "@ + crate::text::decimal((index + 1) as nat) + "/"@
            + crate::text::decimal(total as nat) + "]\n\n"@ + chunk@,
{
    let mut v = to_chars("[File: ");
    crate::text::append_chars(&mut v, to_chars(filename).as_slice());
    crate::text::append_chars(&mut v, to_chars("] [Chunk ").as_slice());
    crate::text::append_chars(&mut v, crate::text::decimal_chars((index + 1) as u64).as_slice());
    crate::text::append_chars(&mut v, to_chars("/").as_slice());
    crate::text::append_chars(&mut v, crate::text::decimal_chars(total as u64).as_slice());
    crate::text::append_chars(&mut v, to_chars("]\n\n").as_slice());
    crate::text::append_chars(&mut v, to_chars(chunk).as_slice());
    crate::text::from_chars(v.as_slice())
}

/// How an archive is unpacked.
#[derive(Debug, Clone, Copy, PartialEq, Eq, Structural)]
pub enum ArchiveKind {
    Zip,
    Tar,
    /// A gzip-compressed tar archive.
    TarGzip,
    /// A single gzip-compressed file.
    Gzip,
}

/// The way to unpack an archive with this (lowercased) extension and path:
/// `gz` is a compressed tar archive when the path ends with `.tar.gz`, as
/// `tgz` always is.
pub open spec fn archive_kind_of(ext: Seq<char>, path: Seq<char>) -> Option<ArchiveKind> {
    if ext == "zip"@ {
        Some(ArchiveKind::Zip)
    } else if ext == "tar"@ {
        Some(ArchiveKind::Tar)
    } else if ext == "gz"@ || ext == "tgz"@ {
        if crate::text::ends_with(path, ".tar.gz"@) || ext == "tgz"@ {
            Some(ArchiveKind::TarGzip)
        } else {
            Some(ArchiveKind::Gzip)
        }
    } else {
        None
    }
}

/// How to unpack the archive at `path`, given its extension (any case);
/// other extensions are refused with "Unsupported archive format:
/// <extension>", in lower case.
pub fn archive_kind(extension: &str, path: &str) -> (r: Result<ArchiveKind, String>)
    ensures
        match archive_kind_of(crate::text::spec_to_lowercase(extension@), path@) {
            Some(k) => r == Ok::<ArchiveKind, String>(k),
            None => r matches Err(m) && m@ == "Unsupported archive format: "@
                + crate::text::spec_to_lowercase(extension@),
        },
{
    let lower = crate::text::to_lowercase(extension);
    let e = lower.as_str();
    if str_eq(e, "zip") {
        Ok(ArchiveKind::Zip)
    } else if str_eq(e, "tar") {
        Ok(ArchiveKind::Tar)
    } else if str_eq(e, "gz") || str_eq(e, "tgz") {
        let p = to_chars(path);
        let suffix = to_chars(".tar.gz");
        if crate::text::ends_with_chars(p.as_slice(), suffix.as_slice()) || str_eq(e, "tgz") {
            Ok(ArchiveKind::TarGzip)
        } else {
            Ok(ArchiveKind::Gzip)
        }
    } else {
        let mut m = crate::text::owned("Unsupported archive format: ");
        m.append(e);
        Err(m)
    }
}

} // verus!

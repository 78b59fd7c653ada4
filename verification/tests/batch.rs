use robot_brain::json::JsonValue;
use robot_brain::tools::ingestor::simple::json_file_text;
use robot_brain::tools::ingestor::text_extractor::TextQuality;
use robot_brain::models::{HierarchyLevel, MemoryType};
use robot_brain::tools::ingestor::ingest::ingestion::{
    json_item_memories, raw_json_item, text_file_memories, text_refusal_message, with_file_source,
    TextFileRefusal,
};
use robot_brain::tools::ingestor::ingest::batch::{
    first_failed, plan_batch, single_ingest_error_message, successfully_ingested, summary_text,
    BatchProgress, FileOutcome, FoundFile, SingleIngestError,
};
use robot_brain::tools::ingestor::ingest::IngestResult;

fn found(name: &str, file_type: &str, skip: Option<&str>, recent: bool) -> FoundFile {
    FoundFile {
        path: format!("/in/{}", name),
        filename: name.to_string(),
        size: 10,
        file_type: file_type.to_string(),
        skip_reason: skip.map(|s| s.to_string()),
        recently_ingested: recent,
    }
}

fn done(name: &str, success: bool, chunks: usize) -> IngestResult {
    IngestResult {
        filename: name.to_string(),
        file_path: format!("/in/{}", name),
        success,
        chunks_created: chunks,
        chunk_size_used: 1000,
        memory_ids: vec![],
        error: None,
        remaining_count: 0,
    }
}

#[test]
fn plan_splits_skipped_recent_and_pending() {
    let files = vec![
        found("a.txt", "text", None, false),
        found("big.bin", "unknown", Some("too big"), false),
        found("b.txt", "text", None, true),
        found("c.txt", "text", None, false),
        found("d.txt", "text", None, false),
    ];
    let plan = plan_batch(files.clone(), false, 2);
    assert_eq!(plan.skipped.len(), 1);
    assert_eq!(plan.skipped[0].filename, "big.bin");
    assert_eq!(plan.already_ingested.len(), 1);
    assert_eq!(plan.already_ingested[0].filename, "b.txt");
    let names: Vec<&str> = plan.to_process.iter().map(|f| f.filename.as_str()).collect();
    assert_eq!(names, vec!["a.txt", "c.txt"]);
    let forced = plan_batch(files, true, 10);
    assert!(forced.already_ingested.is_empty());
    assert_eq!(forced.to_process.len(), 4);
}

#[test]
fn progress_counts_and_stops_on_timeout() {
    let mut p = BatchProgress::new();
    let a = found("a.txt", "text", None, false);
    let z = found("z.zip", "archive", None, false);
    assert!(p.record(&a, FileOutcome::Finished(done("a.txt", true, 3)), 1000, 60));
    assert!(p.record(&z, FileOutcome::Finished(done("z.zip", false, 5)), 1000, 60));
    assert!(p.record(&a, FileOutcome::Failed("disk full".to_string()), 1000, 60));
    assert_eq!(p.successful, 2);
    assert_eq!(p.failed, 1);
    assert_eq!(p.total_chunks, 3);
    assert_eq!(p.results[2].error.as_deref(), Some("disk full"));
    assert!(!p.record(&a, FileOutcome::TimedOut, 1000, 60));
    assert!(p.timeout_occurred);
    assert_eq!(
        p.results[3].error.as_deref(),
        Some("Ingestion timed out after 60 seconds. Try increasing timeout_seconds.")
    );
    assert_eq!(first_failed(&p), Some(1));
    assert_eq!(successfully_ingested(&p.results), vec!["/in/a.txt".to_string()]);
    assert_eq!(summary_text(&p), "Added 3 chunks to memory from 2 files");
}

#[test]
fn summary_names_the_single_file() {
    let mut p = BatchProgress::new();
    let a = found("a.txt", "text", None, false);
    assert!(p.record(&a, FileOutcome::Finished(done("a.txt", true, 4)), 1000, 60));
    assert_eq!(summary_text(&p), "Added 4 chunks to memory from 'a.txt'");
    assert_eq!(first_failed(&p), None);
    let empty = BatchProgress::new();
    assert_eq!(summary_text(&empty), "Added 0 chunks to memory from 0 files");
}

#[test]
fn single_file_messages() {
    assert_eq!(
        single_ingest_error_message(&SingleIngestError::Failed("bad".to_string()), "x.txt", 60),
        "Failed to ingest file: bad"
    );
    assert_eq!(
        single_ingest_error_message(&SingleIngestError::TimedOut, "x.txt", 90),
        "Ingestion timed out after 90 seconds. Try increasing timeout_seconds for large files."
    );
    assert_eq!(
        single_ingest_error_message(&SingleIngestError::NotFound, "x.txt", 60),
        "File not found: x.txt"
    );
}

#[test]
fn text_file_memories_refusals_and_sources() {
    let blank = text_file_memories("  \n ", "a.txt", "txt", "/in/a.txt", None).unwrap_err();
    assert_eq!(blank, TextFileRefusal::NoText);
    assert_eq!(text_refusal_message(blank, ""), "File contains no text");
    let binary = text_file_memories("ab\u{0}cdefgh", "a.txt", "txt", "/in/a.txt", None).unwrap_err();
    assert_eq!(binary, TextFileRefusal::Unreadable(TextQuality::NullBytes(1)));
    assert_eq!(
        text_refusal_message(binary, "Contains 1 null bytes (binary content)"),
        "Content is not readable text: Contains 1 null bytes (binary content)"
    );
    let cards = text_file_memories("# Title\n\nSome body text.", "a.md", "MD", "/in/a.md", None)
        .unwrap();
    assert!(!cards.is_empty());
    assert!(cards.iter().all(|c| c.file_source.as_deref() == Some("/in/a.md")));
    assert!(cards[0].parent_id.is_none());
    let n = cards.len();
    let first_id = cards[0].id.clone();
    let again = with_file_source(cards, "/other");
    assert_eq!(again.len(), n);
    assert_eq!(again[0].id, first_id);
    assert_eq!(again[0].file_source.as_deref(), Some("/other"));
}

#[test]
fn json_items_short_and_long() {
    let short = json_item_memories("hello", 3, "data.json", MemoryType::Note, "/in/data.json", None);
    assert_eq!(short.len(), 1);
    assert_eq!(short[0].path, "data.json/item[3]");
    assert_eq!(short[0].order_index, 3);
    assert_eq!(short[0].hierarchy_level, HierarchyLevel::Section);
    assert_eq!(short[0].memory_type, MemoryType::Note);
    assert_eq!(short[0].file_source.as_deref(), Some("/in/data.json"));
    let long = "x".repeat(1200);
    let cards = json_item_memories(&long, 0, "data.json", MemoryType::Note, "/in/data.json", None);
    assert!(!cards.is_empty());
    assert!(cards.iter().all(|c| c.file_source.as_deref() == Some("/in/data.json")));
    let raw = raw_json_item("{}".to_string());
    assert_eq!(raw.json_path, "root");
    assert_eq!(raw.field_name, "raw");
    assert_eq!(raw.data_type, "raw.json");
    assert_eq!(raw.to_memory_content(), "{}\n\n[Source: root]");
}

#[test]
fn json_file_text_pretty_or_raw() {
    assert_eq!(json_file_text("{not json", None), "{not json");
    let v = JsonValue::Object(vec![("a".to_string(), JsonValue::Bool(true))]);
    assert_eq!(json_file_text("{\"a\":true}", Some(&v)), "{\n  \"a\": true\n}");
}

use robot_brain::tools::ingestor::simple::{
    chunk_text, detect_file_type, file_type_for_extension, get_import_folder, parse_memory_type,
};
use robot_brain::tools::ingestor::audio_transcriber::{get_supported_extensions, is_audio_extension, is_audio_file};
use robot_brain::tools::ingestor::ingest::{IngestFilesInput, IngestTracker};
use robot_brain::tools::ingestor::ingest::helpers::{is_archive_extension, is_archive_file};
use robot_brain::models::MemoryType;

#[test]
fn test_detect_file_type() {
    assert_eq!(detect_file_type("test.txt"), "text");
    assert_eq!(detect_file_type("test.json"), "json");
    assert_eq!(detect_file_type("test.pdf"), "pdf");
    assert_eq!(detect_file_type("test.zip"), "archive");
    assert_eq!(detect_file_type("test.mp3"), "audio");
    assert_eq!(detect_file_type("test.unknown"), "unknown");
}

#[test]
fn test_chunk_text() {
    let text = "Hello world! This is a test. ".repeat(100);
    let chunks = chunk_text(&text, 50, 10);

    assert!(chunks.len() > 1);
    assert!(chunks.iter().all(|c| c.len() <= 50 || c.len() < 50));
}

#[test]
fn test_chunk_small_text() {
    let text = "Short text";
    let chunks = chunk_text(text, 1000, 100);

    assert_eq!(chunks.len(), 1);
    assert_eq!(chunks[0], text);
}

#[test]
fn test_byte_chunks_overlap() {
    let chunks = chunk_text("abcdefghij", 4, 1);
    assert_eq!(chunks, vec!["abcd", "defg", "ghij"]);
}

#[test]
fn test_is_audio_file() {
    assert!(is_audio_file("test.mp3"));
    assert!(is_audio_file("test.WAV"));
    assert!(is_audio_file("test.m4a"));
    assert!(is_audio_file("test.flac"));
    assert!(is_audio_file("test.ogg"));
    assert!(!is_audio_file("test.txt"));
    assert!(!is_audio_file("test.mp4"));
    assert!(!is_audio_file("test.pdf"));
}

#[test]
fn test_get_supported_extensions() {
    let exts = get_supported_extensions();
    assert!(exts.contains(&"mp3"));
    assert!(exts.contains(&"wav"));
    assert!(exts.contains(&"m4a"));
    assert!(exts.contains(&"flac"));
    assert!(exts.contains(&"ogg"));
}

#[test]
fn test_audio_extension_ignores_case() {
    assert!(is_audio_extension("OPUS"));
    assert!(is_audio_extension("wma"));
    assert!(!is_audio_extension("mp4"));
}

#[test]
fn test_file_type_for_extension_kinds() {
    assert_eq!(file_type_for_extension("MD"), "text");
    assert_eq!(file_type_for_extension("jsonl"), "json");
    assert_eq!(file_type_for_extension("tgz"), "archive");
    assert_eq!(file_type_for_extension("aac"), "audio");
    assert_eq!(file_type_for_extension(""), "unknown");
    assert_eq!(detect_file_type("no_extension"), "unknown");
}

#[test]
fn test_archive_detection() {
    assert!(is_archive_extension("ZIP"));
    assert!(is_archive_file("bundle.tar"));
    assert!(!is_archive_file("notes.txt"));
}

#[test]
fn test_import_folder_default() {
    assert_eq!(get_import_folder(None), "files_to_import");
    assert_eq!(get_import_folder(Some("inbox")), "inbox");
}

#[test]
fn test_ingest_memory_type() {
    assert_eq!(parse_memory_type("Conversation"), MemoryType::Conversation);
    assert_eq!(parse_memory_type("NOTE"), MemoryType::Note);
    assert_eq!(parse_memory_type("code"), MemoryType::Code);
    assert_eq!(parse_memory_type("fact"), MemoryType::File);
}

#[test]
fn test_tracker_records_and_clears() {
    let mut tracker = IngestTracker::new();
    assert!(!tracker.can_verify_deletion());
    tracker.record_ingestion(vec!["Docs/Report.TXT".to_string(), "a.md".to_string()]);
    assert!(tracker.is_recorded("docs/report.txt"));
    assert!(tracker.is_recorded("A.MD"));
    assert!(!tracker.is_recorded("b.md"));
    assert!(tracker.can_verify_deletion());
    tracker.clear();
    assert!(!tracker.is_recorded("a.md"));
    assert!(!tracker.can_verify_deletion());
}

fn input(file_path: Option<&str>, alias: Option<Vec<&str>>) -> IngestFilesInput {
    IngestFilesInput {
        folder: None,
        file_path: file_path.map(|s| s.to_string()),
        file_paths_alias: alias.map(|v| v.into_iter().map(|s| s.to_string()).collect()),
        limit: None,
        chunk_size: None,
        memory_type: None,
        timeout_seconds: None,
        recursive: None,
        force: None,
        summary_only: None,
    }
}

#[test]
fn test_get_file_path_prefers_single_path() {
    assert_eq!(input(Some("a.txt"), Some(vec!["b.txt"])).get_file_path(), Some("a.txt"));
    assert_eq!(input(None, Some(vec!["b.txt", "c.txt"])).get_file_path(), Some("b.txt"));
    assert_eq!(input(None, Some(vec![])).get_file_path(), None);
    assert_eq!(input(None, None).get_file_path(), None);
}

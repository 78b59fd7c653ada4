use robot_brain::json::JsonValue;
use robot_brain::skills::registry::context::ExecutionContext;
use robot_brain::tools::ingestor::audio_transcriber::{
    audio_source, compressed_audio_message, unsupported_audio_message, AudioSource,
};
use robot_brain::tools::ingestor::ingest::{deletion_confirmed, recommended_chunk_size};
use robot_brain::tools::ingestor::simple::{
    archive_kind, audio_placeholder_text, chunk_memory_content, pdf_printable_text, text_kind_for,
    ArchiveKind, TextKind,
};
use robot_brain::tools::ingestor::text_extractor::{
    is_epub_text_entry, is_svg_extension, text_source, TextSource, IMAGE_NOTE, IMAGE_TEXT_ERROR,
};
use robot_brain::tools::ingestor::paths::strip_extended_length_prefix;

#[test]
fn test_text_kind_dispatch() {
    assert_eq!(text_kind_for("MD"), Ok(TextKind::Text));
    assert_eq!(text_kind_for("jsonl"), Ok(TextKind::Json));
    assert_eq!(text_kind_for("Pdf"), Ok(TextKind::Pdf));
    assert_eq!(text_kind_for("DOCX"), Err("Unsupported file type: docx".to_string()));
    assert_eq!(text_kind_for(""), Err("Unsupported file type: ".to_string()));
}

#[test]
fn test_printable_pdf_text() {
    let raw = b"%PDF-1.4\n<< /Type /Catalog >>\nHello\x01 world\r\n\n>> end\nLast line";
    assert_eq!(pdf_printable_text(raw), Ok("Hello world\nLast line".to_string()));
    assert_eq!(
        pdf_printable_text(b"%only\n<<x\n\x00\x01\x02"),
        Err("No readable text found in PDF".to_string())
    );
    assert_eq!(pdf_printable_text(b"caf\xc3\xa9"), Ok("caf".to_string()));
}

#[test]
fn test_audio_placeholder_and_chunk_text() {
    let t = audio_placeholder_text("talk.mp3");
    assert!(t.starts_with("[Audio file: talk.mp3]\nThis audio file requires transcription"));
    assert!(t.ends_with("- Google Speech-to-Text\n\nTo transcribe this file, run the transcribe_audio tool with the file path."));
    assert_eq!(
        chunk_memory_content("notes.txt", 0, 3, "first part"),
        "[File: notes.txt] [Chunk 1/3]\n\nfirst part"
    );
    assert_eq!(chunk_memory_content("a", 9, 10, ""), "[File: a] [Chunk 10/10]\n\n");
}

#[test]
fn test_archive_kinds() {
    assert_eq!(archive_kind("ZIP", "x.ZIP"), Ok(ArchiveKind::Zip));
    assert_eq!(archive_kind("tar", "x.tar"), Ok(ArchiveKind::Tar));
    assert_eq!(archive_kind("gz", "dir/x.tar.gz"), Ok(ArchiveKind::TarGzip));
    assert_eq!(archive_kind("tgz", "x.tgz"), Ok(ArchiveKind::TarGzip));
    assert_eq!(archive_kind("gz", "notes.txt.gz"), Ok(ArchiveKind::Gzip));
    assert_eq!(archive_kind("7z", "x.7z"), Err("Unsupported archive format: 7z".to_string()));
}

#[test]
fn test_text_sources() {
    assert_eq!(text_source("PDF"), TextSource::Pdf);
    assert_eq!(text_source("docx"), TextSource::Docx);
    assert_eq!(text_source("epub"), TextSource::Epub);
    assert_eq!(text_source("JSON"), TextSource::Json);
    assert_eq!(text_source("svgz"), TextSource::Image);
    assert_eq!(text_source("Tiff"), TextSource::Image);
    assert_eq!(text_source("rs"), TextSource::Plain);
    assert_eq!(text_source(""), TextSource::Plain);
    assert!(is_epub_text_entry("OEBPS/ch1.xhtml"));
    assert!(is_epub_text_entry("index.htm"));
    assert!(is_epub_text_entry("content.opf"));
    assert!(!is_epub_text_entry("OEBPS/content.opf"));
    assert!(!is_epub_text_entry("style.css"));
    assert!(is_svg_extension("svg"));
    assert!(!is_svg_extension("SVG"));
    assert!(IMAGE_TEXT_ERROR.starts_with("Images should use"));
    assert!(IMAGE_NOTE.starts_with("This is an image file."));
}

#[test]
fn test_audio_sources_and_messages() {
    assert_eq!(audio_source("WAV"), AudioSource::Wav);
    assert_eq!(audio_source("opus"), AudioSource::Compressed);
    assert_eq!(audio_source("mid"), AudioSource::Unsupported);
    assert_eq!(
        compressed_audio_message("mp3", "/a/b.mp3"),
        "Compressed audio format 'mp3' requires conversion to WAV.\n\nTo convert using ffmpeg:\n\nffmpeg -i \"/a/b.mp3\" -ar 16000 -ac 1 -acodec pcm_s16le output.wav\n\nThen transcribe 'output.wav' instead."
    );
    assert_eq!(
        unsupported_audio_message("mid"),
        "Unsupported audio format: mid. Supported: mp3, wav, m4a, flac, ogg, aac, wma, opus"
    );
}

#[test]
fn test_recommended_chunk_size() {
    assert_eq!(recommended_chunk_size(500, 5_000_000), 500);
    assert_eq!(recommended_chunk_size(0, 5_000_000), 8000);
    assert_eq!(recommended_chunk_size(0, 1_000_000), 2000);
    assert_eq!(recommended_chunk_size(0, 10_001), 2000);
    assert_eq!(recommended_chunk_size(0, 10_000), 1000);
}

#[test]
fn test_execution_context_builder() {
    let c = ExecutionContext::new("summarise".to_string())
        .with_param("k".to_string(), JsonValue::Bool(true))
        .with_param("k".to_string(), JsonValue::Null)
        .with_memory("m".to_string(), JsonValue::Bool(false))
        .with_knowledge_context(vec!["k1".to_string()])
        .with_time_limit(30);
    assert_eq!(c.task, "summarise");
    assert_eq!(c.parameters.len(), 1);
    assert!(matches!(c.parameters.get("k"), Some(JsonValue::Null)));
    assert!(matches!(c.working_memory.get("m"), Some(JsonValue::Bool(false))));
    assert_eq!(c.knowledge_context, vec!["k1".to_string()]);
    assert_eq!(c.time_limit_secs, Some(30));
}

#[test]
fn test_deletion_confirmation() {
    assert!(deletion_confirmed("yes"));
    assert!(deletion_confirmed("YES"));
    assert!(deletion_confirmed("Confirm"));
    assert!(!deletion_confirmed("y"));
    assert!(!deletion_confirmed(" yes"));
}

#[test]
fn extended_length_prefix_is_stripped() {
    assert_eq!(strip_extended_length_prefix(r"\\?\E:\data\notes.txt"), r"E:\data\notes.txt");
    assert_eq!(strip_extended_length_prefix("/home/user/notes.txt"), "/home/user/notes.txt");
    assert_eq!(strip_extended_length_prefix(r"\\?"), r"\\?");
}

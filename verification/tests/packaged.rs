use std::io::{Cursor, Write};

use robot_brain::tools::ingestor::packaged::{
    docx_text_from_bytes, docx_text_from_parts, epub_add_entry, epub_text_from_bytes,
};
use zip::write::SimpleFileOptions;
use zip::ZipWriter;

fn zip_of(entries: &[(&str, &str)]) -> Vec<u8> {
    let mut w = ZipWriter::new(Cursor::new(Vec::new()));
    for (name, text) in entries {
        w.start_file(*name, SimpleFileOptions::default()).unwrap();
        w.write_all(text.as_bytes()).unwrap();
    }
    w.finish().unwrap().into_inner()
}

#[test]
fn docx_main_part_text() {
    let bytes = zip_of(&[
        ("[Content_Types].xml", "<Types/>"),
        ("word/document.xml", "<w:document><w:p><w:t>Hello</w:t></w:p>\n<w:p><w:t>World</w:t></w:p></w:document>"),
    ]);
    let text = docx_text_from_bytes(&bytes).unwrap();
    assert!(text.contains("Hello"));
    assert!(text.contains("World"));
    assert!(!text.contains("<w:t>"));
}

#[test]
fn docx_without_text_is_refused() {
    let missing = zip_of(&[("other.xml", "<a>text</a>")]);
    assert_eq!(docx_text_from_bytes(&missing).unwrap_err(), "Could not extract text from DOCX");
    let blank = zip_of(&[("word/document.xml", "<w:document>  </w:document>")]);
    assert_eq!(docx_text_from_bytes(&blank).unwrap_err(), "Could not extract text from DOCX");
    assert!(docx_text_from_bytes(b"not a zip").is_err());
}

#[test]
fn epub_pages_in_order() {
    let bytes = zip_of(&[
        ("mimetype", "application/epub+zip"),
        ("OEBPS/ch1.xhtml", "<html><body><p>First</p></body></html>"),
        ("OEBPS/style.css", "p { color: red }"),
        ("OEBPS/ch2.html", "<p>Second</p>"),
    ]);
    let text = epub_text_from_bytes(&bytes).unwrap();
    let first = text.find("First").unwrap();
    let second = text.find("Second").unwrap();
    assert!(first < second);
    assert!(!text.contains("color"));
    assert!(text.ends_with("\n\n"));
    let empty = zip_of(&[("mimetype", "application/epub+zip")]);
    assert_eq!(epub_text_from_bytes(&empty).unwrap_err(), "Could not extract text from EPUB");
}

#[test]
fn docx_and_epub_steps_on_given_reads() {
    assert_eq!(docx_text_from_parts(Err("bad archive".to_string()), None).unwrap_err(), "bad archive");
    assert_eq!(
        docx_text_from_parts(Ok(2), Some(Err("stream did not contain valid UTF-8".to_string()))).unwrap_err(),
        "stream did not contain valid UTF-8"
    );
    assert_eq!(docx_text_from_parts(Ok(2), Some(Ok("<p>Hi</p>".to_string()))).unwrap(), "Hi");
    assert_eq!(docx_text_from_parts(Ok(2), None).unwrap_err(), "Could not extract text from DOCX");
    let mut g: Vec<char> = Vec::new();
    epub_add_entry(&mut g, Some("a.css"), None).unwrap();
    assert!(g.is_empty());
    epub_add_entry(&mut g, Some("a.xhtml"), Some(Ok("<p>Page</p>".to_string()))).unwrap();
    assert_eq!(g.iter().collect::<String>(), "Page\n\n");
    assert_eq!(
        epub_add_entry(&mut g, Some("b.html"), Some(Err("read failed".to_string()))).unwrap_err(),
        "read failed"
    );
    epub_add_entry(&mut g, None, None).unwrap();
    assert_eq!(g.iter().collect::<String>(), "Page\n\n");
}

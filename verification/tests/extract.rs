use robot_brain::json::{JsonNumber, JsonValue};
use robot_brain::memory_types::MemoryType as LayerType;
use robot_brain::models::MemoryType;
use robot_brain::skills::registry::SkillCategory;
use robot_brain::tools::external::{
    reference_external_capability_contracts, validate_capability, AuthKind, ExternalCapability,
};
use robot_brain::tools::ingestor::text_extractor::{
    chunk_text, detect_pdf_images, extract_chroma_text, extract_svg_attr, is_chroma_export,
    pdf_text_from_bytes, strip_html_tags, strip_xml_tags, svg_info, text_quality, ImageMetadata,
    PdfTextError, TextQuality,
};
use robot_brain::tools::memory::{
    content_looks_like_garbage, convert_memory_type_to_memory, extract_field_from_content,
    parse_memory_type,
};
use robot_brain::tools::permissions::{
    is_authorized, reference_tool_permissions_contracts, ToolPermission, ToolPermissionStore,
};
use robot_brain::tools::registry::ToolError;
use robot_brain::tools::ingestor::wav::{
    decode_wav_samples, parse_wav_layout, wav_header_truncated, WavError, WavLayout,
};
use robot_brain::tools::skills::parse_category;

fn s(x: &str) -> JsonValue {
    JsonValue::String(x.to_string())
}

fn obj(ms: Vec<(&str, JsonValue)>) -> JsonValue {
    JsonValue::Object(ms.into_iter().map(|(k, v)| (k.to_string(), v)).collect())
}

fn arr(items: Vec<JsonValue>) -> JsonValue {
    JsonValue::Array(items)
}

#[test]
fn test_strip_tags() {
    let xml = "<a>\n  Hello <b>world</b>  \n\n<c/>  Bye \n</a>";
    assert_eq!(strip_xml_tags(xml), "Hello world\nBye");
    assert_eq!(strip_html_tags("<p>One</p>\n<p> Two </p>"), "One\nTwo");
    assert_eq!(strip_xml_tags(""), "");
}

#[test]
fn test_chunk_text_by_characters() {
    assert_eq!(chunk_text("abcdefghij", 4, 1), vec!["abcd", "defg", "ghij"]);
    assert_eq!(chunk_text("hi", 5, 10), vec!["hi"]);
    assert_eq!(chunk_text("\u{e9}\u{e9}\u{e9}", 2, 0), vec!["\u{e9}\u{e9}", "\u{e9}"]);
    assert_eq!(chunk_text("abcdef", 3, 0), vec!["abc", "def"]);
}

#[test]
fn test_text_quality_verdicts() {
    assert_eq!(text_quality(""), TextQuality::Empty);
    assert_eq!(text_quality("   \n"), TextQuality::Empty);
    assert_eq!(text_quality("ab\0cdefghij"), TextQuality::NullBytes(1));
    assert_eq!(
        text_quality("\u{1}\u{2}\u{3}abc"),
        TextQuality::MostlyBinary { printable: 3, total: 6 }
    );
    assert_eq!(
        text_quality("abcdefghijklmnopqrs\u{1}\u{2}\u{3}"),
        TextQuality::ControlCharacters(3)
    );
    assert_eq!(text_quality("a\u{FFFD}"), TextQuality::ReplacementCharacters(1));
    assert_eq!(text_quality("Hello, world!\n"), TextQuality::Valid);
    assert_eq!(text_quality("abcdefg\u{1}\u{2}\u{3}"), TextQuality::ControlCharacters(3));
}

#[test]
fn test_svg_attributes_and_info() {
    let svg = "<svg width=\"100\" height='50' viewBox=\"0 0 10 10\"><rect/><circle/><path d=\"\"/><text>hi</text></svg>";
    assert_eq!(extract_svg_attr(svg, "width").as_deref(), Some("100"));
    assert_eq!(extract_svg_attr(svg, "height").as_deref(), Some("50"));
    assert_eq!(extract_svg_attr(svg, "viewBox").as_deref(), Some("0 0 10 10"));
    assert_eq!(extract_svg_attr(svg, "depth"), None);
    assert_eq!(
        svg_info(svg).as_deref(),
        Some("Width: 100\nHeight: 50\nViewBox: 0 0 10 10\nContains: 3 shapes, 1 text elements\n")
    );
    assert_eq!(svg_info("hello"), None);
    assert_eq!(svg_info("  <svg></svg>"), None);
    assert_eq!(svg_info("<?xml version=\"1.0\"?><svg><path/><path/></svg>").as_deref(), Some("Contains: 2 shapes, 0 text elements\n"));
}

#[test]
fn test_image_memory_content() {
    let meta = ImageMetadata {
        filename: "a.png".to_string(),
        path: "/tmp/a.png".to_string(),
        format: "PNG".to_string(),
        file_size_bytes: 1024,
        file_size_human: "1.0 KB".to_string(),
        has_svg_content: false,
        svg_content_preview: None,
        note: "n".to_string(),
    };
    assert_eq!(
        meta.to_memory_content(),
        "IMAGE FILE\nFilename: a.png\nFormat: PNG\nSize: 1.0 KB\n\nNote: n\n"
    );
    let svg = ImageMetadata { svg_content_preview: Some("Width: 3\n".to_string()), ..meta };
    assert_eq!(
        svg.to_memory_content(),
        "IMAGE FILE\nFilename: a.png\nFormat: PNG\nSize: 1.0 KB\n\nSVG Details:\nWidth: 3\n\nNote: n\n"
    );
}

#[test]
fn test_chroma_export() {
    assert!(is_chroma_export("{\"Documents\": [[]], \"metadatas\": []}"));
    assert!(is_chroma_export("{\"documents\": [], \"EMBEDDINGS\": []}"));
    assert!(!is_chroma_export("{\"documents\": []}"));
    let v = obj(vec![
        ("ids", arr(vec![arr(vec![s("a"), s("b")])])),
        ("documents", arr(vec![arr(vec![s("doc one"), s("doc two")])])),
        ("metadatas", arr(vec![arr(vec![obj(vec![("k", s("v"))])])])),
    ]);
    assert_eq!(
        extract_chroma_text(&v),
        Ok("# Chroma Database Export\n\n---\nID: a\nMetadata: {\n  \"k\": \"v\"\n}\nContent:\ndoc one\n\n---\nID: b\nContent:\ndoc two\n\n".to_string())
    );
    let empty = obj(vec![("documents", arr(vec![arr(vec![])]))]);
    assert_eq!(extract_chroma_text(&empty), Err("No documents found in chroma export".to_string()));
    let n = JsonValue::Number(JsonNumber { text: "1".to_string(), as_i64: Some(1), f64_text: "1".to_string() });
    assert_eq!(extract_chroma_text(&n), Err("No documents found in chroma export".to_string()));
}

#[test]
fn test_pdf_text() {
    assert!(detect_pdf_images(b"xx /DCTDecode yy"));
    assert!(detect_pdf_images(b"BI ... ID ... EI"));
    assert!(!detect_pdf_images(b"BT (Hello) Tj ET"));
    assert_eq!(
        pdf_text_from_bytes(b"BT (Hello) Tj ET\nxyz\n(World) Tj\n"),
        Ok(" Hello Tj \nWorld Tj\n".to_string())
    );
    assert_eq!(pdf_text_from_bytes(b"nothing here"), Err(PdfTextError::NoText));
    assert_eq!(pdf_text_from_bytes(b"/Subtype /Image"), Err(PdfTextError::ImagesOnly));
    let with_image = pdf_text_from_bytes(b"(Caption) Tj\n/Subtype /Image\n").unwrap();
    assert!(with_image.starts_with("Caption Tj\n\n\n---\nNOTE: This PDF contains embedded images/diagrams.\n"));
    assert_eq!(
        PdfTextError::NoText.message(),
        "Could not extract text from PDF - file may be scanned/image-based"
    );
    assert_eq!(pdf_text_from_bytes(b"BT (a\\tb) Tj"), Ok(" a\tb Tj\n".to_string()));
}

#[test]
fn test_memory_helpers() {
    assert_eq!(parse_memory_type("FACT"), MemoryType::Fact);
    assert_eq!(parse_memory_type("Encounter"), MemoryType::Encounter);
    assert_eq!(parse_memory_type("whatever"), MemoryType::Note);
    assert_eq!(convert_memory_type_to_memory(MemoryType::Code), LayerType::Skill);
    assert_eq!(convert_memory_type_to_memory(MemoryType::Event), LayerType::Observation);
    assert_eq!(convert_memory_type_to_memory(MemoryType::Note), LayerType::Experience);
    let content = "Title: Hello\nAuthor:  Bob \n";
    assert_eq!(extract_field_from_content(content, "Author:"), "Bob");
    assert_eq!(extract_field_from_content(content, "Title:"), "Hello");
    assert_eq!(extract_field_from_content(content, "Date:"), "unknown");
}

#[test]
fn test_garbage_detection() {
    assert!(!content_looks_like_garbage("short"));
    assert!(content_looks_like_garbage("abc\0defghijk"));
    assert!(content_looks_like_garbage("\u{1}\u{2}\u{3}\u{4}\u{5}\u{6}\u{7}\u{8}abc"));
    assert!(content_looks_like_garbage("PK\u{3}\u{4}hello world"));
    assert!(content_looks_like_garbage("GIF89a and more text"));
    assert!(!content_looks_like_garbage("Hello, this is plain text"));
}

#[test]
fn test_skill_category_parsing() {
    assert_eq!(parse_category("DB"), Ok(SkillCategory::Database));
    assert_eq!(parse_category("file"), Ok(SkillCategory::FileOperation));
    assert_eq!(parse_category("Code"), Ok(SkillCategory::CodeAnalysis));
    assert_eq!(parse_category("custom"), Ok(SkillCategory::Custom));
    assert_eq!(parse_category("Quantum"), Err("Unknown skill category: Quantum".to_string()));
}

#[test]
fn test_permissions_and_capabilities() {
    let mut store = ToolPermissionStore::new();
    store.grant(ToolPermission {
        tool_name: "t".to_string(),
        allowed_callers: vec!["alice".to_string()],
        max_invocations_per_minute: 10,
    });
    store.grant(ToolPermission {
        tool_name: "t".to_string(),
        allowed_callers: vec!["bob".to_string(), "carol".to_string()],
        max_invocations_per_minute: 5,
    });
    assert_eq!(store.permissions.get("t").map(|l| l.len()), Some(2));
    store.revoke("t", "bob");
    let left = store.permissions.get("t").unwrap();
    assert_eq!(left.len(), 1);
    assert_eq!(left[0].allowed_callers, vec!["alice".to_string()]);
    store.revoke("missing", "alice");
    assert_eq!(store.permissions.len(), 1);
    assert!(is_authorized("t", "bob"));
    assert_eq!(reference_tool_permissions_contracts(), (1, true));

    let bad = ExternalCapability {
        name: "c".to_string(),
        endpoint: "https://example.com".to_string(),
        auth_kind: AuthKind::NoAuth,
        required_scopes: vec!["read".to_string()],
    };
    match validate_capability(&bad) {
        Err(ToolError::RegistrationFailed(m)) => {
            assert_eq!(m, "auth_kind must not be None when required_scopes is non-empty")
        }
        other => panic!("unexpected {:?}", other),
    }
    let open = ExternalCapability { required_scopes: vec![], ..bad };
    assert!(validate_capability(&open).is_ok());
    assert!(reference_external_capability_contracts());
}

fn wav_bytes(chunks: &[(&[u8; 4], Vec<u8>)], total_len: usize) -> Vec<u8> {
    let mut d = b"RIFF".to_vec();
    d.extend_from_slice(&0u32.to_le_bytes());
    d.extend_from_slice(b"WAVE");
    for (tag, body) in chunks {
        d.extend_from_slice(*tag);
        d.extend_from_slice(&(body.len() as u32).to_le_bytes());
        d.extend_from_slice(body);
    }
    d.resize(total_len.max(d.len()), 0);
    d
}

fn fmt_body(channels: u16, rate: u32, bits: u16) -> Vec<u8> {
    let mut b = 1u16.to_le_bytes().to_vec();
    b.extend_from_slice(&channels.to_le_bytes());
    b.extend_from_slice(&rate.to_le_bytes());
    b.extend_from_slice(&(rate * 4).to_le_bytes());
    b.extend_from_slice(&4u16.to_le_bytes());
    b.extend_from_slice(&bits.to_le_bytes());
    b
}

#[test]
fn test_wav_layout_and_samples() {
    let data = wav_bytes(
        &[(b"fmt ", fmt_body(2, 8000, 16)), (b"data", vec![0x00, 0x80, 0xFF, 0x7F, 0x01, 0x00, 0xFF, 0xFF])],
        0,
    );
    assert_eq!(data.len(), 52);
    assert!(!wav_header_truncated(&data));
    let layout = parse_wav_layout(&data).unwrap();
    // The format fields are read at offsets 14, 16 and 22 from the chunk's
    // tag: the upper half of the sample rate, the byte rate, the sample width.
    assert_eq!(
        layout,
        WavLayout { channels: 0, sample_rate: 32000, bits_per_sample: 16, data_start: 44, data_end: 52 }
    );
    let samples = decode_wav_samples(&data[layout.data_start..layout.data_end], 16).unwrap();
    assert_eq!(samples, vec![-32768, 32767, 1, -1]);
    assert_eq!(decode_wav_samples(&[0, 128, 255], 8), Ok(vec![-128, 0, 127]));
    assert_eq!(decode_wav_samples(&[0, 0, 0x80, 1, 0, 0], 24), Ok(vec![i32::MIN, 256]));
    assert_eq!(decode_wav_samples(&[0xFF, 0xFF, 0xFF, 0xFF, 0xAA], 32), Ok(vec![-1]));
    assert_eq!(decode_wav_samples(&[1, 2, 3], 12), Err(WavError::UnsupportedBits(12)));
    assert_eq!(decode_wav_samples(&[], 12), Ok(vec![]));
    assert_eq!(WavError::UnsupportedBits(12).message(), "Unsupported bits per sample: 12");

    // Without a format chunk the defaults hold: mono, 16 kHz, 16 bits.
    let plain = wav_bytes(&[(b"LIST", vec![1, 2, 3, 4]), (b"data", vec![9; 20])], 0);
    let l = parse_wav_layout(&plain).unwrap();
    assert_eq!((l.channels, l.sample_rate, l.bits_per_sample), (1, 16000, 16));
    assert_eq!((l.data_start, l.data_end), (32, 52));

    assert_eq!(parse_wav_layout(&data[..40]), Err(WavError::TooSmall));
    let mut bad = data.clone();
    bad[3] = b'X';
    assert_eq!(parse_wav_layout(&bad), Err(WavError::MissingRiff));
    let mut bad = data.clone();
    bad[8] = b'X';
    assert_eq!(parse_wav_layout(&bad), Err(WavError::MissingWave));
    let nodata = wav_bytes(&[(b"fmt ", fmt_body(1, 16000, 16))], 60);
    assert_eq!(parse_wav_layout(&nodata), Err(WavError::NoDataChunk));
    assert_eq!(WavError::NoDataChunk.message(), "Invalid WAV file: no data chunk found");

    // A format chunk that claims more bytes than the file holds.
    let mut cut = wav_bytes(&[(b"junk", vec![0; 16])], 0);
    cut.extend_from_slice(b"fmt ");
    cut.extend_from_slice(&16u32.to_le_bytes());
    cut.extend_from_slice(&[0, 0]);
    assert_eq!(cut.len(), 46);
    assert!(wav_header_truncated(&cut));
}

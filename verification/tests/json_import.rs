use robot_brain::json::{to_json_string, to_pretty_string, JsonNumber, JsonValue};
use robot_brain::tools::ingestor::json_importer::{
    detect_json_type, extract_generic_json, format_import_summary, import_json_value, ExtractedJsonData,
    JsonFileType, JsonImportConfig,
};

fn s(x: &str) -> JsonValue {
    JsonValue::String(x.to_string())
}

fn n(i: i64) -> JsonValue {
    JsonValue::Number(JsonNumber { text: i.to_string(), as_i64: Some(i), f64_text: (i as f64).to_string() })
}

fn obj(ms: Vec<(&str, JsonValue)>) -> JsonValue {
    JsonValue::Object(ms.into_iter().map(|(k, v)| (k.to_string(), v)).collect())
}

#[test]
fn test_compact_and_pretty_text() {
    let v = obj(vec![("a", JsonValue::Array(vec![n(1), JsonValue::Null])), ("b", s("q\"\n\u{1}"))]);
    assert_eq!(to_json_string(&v), "{\"a\":[1,null],\"b\":\"q\\\"\\n\\u0001\"}");
    assert_eq!(to_pretty_string(&v), "{\n  \"a\": [\n    1,\n    null\n  ],\n  \"b\": \"q\\\"\\n\\u0001\"\n}");
    assert_eq!(to_pretty_string(&obj(vec![])), "{}");
    assert_eq!(to_pretty_string(&JsonValue::Array(vec![])), "[]");
}

#[test]
fn test_detect_layouts() {
    assert_eq!(detect_json_type(&obj(vec![("embeddings", JsonValue::Null)])), JsonFileType::EmbeddingsExport);
    assert_eq!(detect_json_type(&obj(vec![("chat", JsonValue::Null)])), JsonFileType::Conversation);
    assert_eq!(detect_json_type(&obj(vec![("rows", JsonValue::Array(vec![obj(vec![])]))])), JsonFileType::DataArray);
    assert_eq!(detect_json_type(&obj(vec![("rows", JsonValue::Array(vec![n(1)]))])), JsonFileType::MixedObject);
    assert_eq!(detect_json_type(&JsonValue::Array(vec![obj(vec![("role", s("u"))])])), JsonFileType::Conversation);
    assert_eq!(detect_json_type(&JsonValue::Array(vec![obj(vec![("x", n(1))])])), JsonFileType::DataArray);
    assert_eq!(detect_json_type(&JsonValue::Array(vec![])), JsonFileType::Unknown);
    assert_eq!(detect_json_type(&s("x")), JsonFileType::Unknown);
}

fn contents(items: &[ExtractedJsonData]) -> Vec<(String, String, String, String, String)> {
    items
        .iter()
        .map(|i| (i.content.clone(), i.json_path.clone(), i.field_name.clone(), i.sibling_context.clone(), i.data_type.clone()))
        .collect()
}

#[test]
fn test_import_conversation() {
    let doc = obj(vec![
        ("id", n(7)),
        ("messages", JsonValue::Array(vec![
            obj(vec![("role", s("user")), ("text", s("hi there"))]),
            obj(vec![("note", s("n1")), ("extra", s("e"))]),
        ])),
        ("title", s("Chat")),
    ]);
    let r = import_json_value(&doc, None);
    assert_eq!(r.json_type, JsonFileType::Conversation);
    let c = contents(&r.items);
    assert_eq!(c[0], ("id: 7, title: Chat".into(), "".into(), "_metadata".into(), "".into(), "metadata".into()));
    assert_eq!(c[1], ("hi there".into(), "messages[0].text".into(), "text".into(), "role: user".into(), "conversation.message".into()));
    assert_eq!(c[2], ("n1".into(), "messages[1].note".into(), "note".into(), "".into(), "conversation.other".into()));
    assert_eq!(c[3].1, "messages[1].extra");
    assert_eq!(r.stats.total_items, 4);
    assert_eq!(r.stats.metadata_items, 1);
    assert_eq!(r.items[1].to_memory_content(), "hi there\n\n[Context: role: user]\n\n[Source: messages[0].text]");
}

#[test]
fn test_import_records_and_key_values() {
    let records = JsonValue::Array(vec![
        obj(vec![("title", s("Book")), ("pages", n(300)), ("tags", JsonValue::Array(vec![]))]),
        obj(vec![("code", s("X1")), ("kind", s("a"))]),
    ]);
    let r = import_json_value(&records, None);
    assert_eq!(r.json_type, JsonFileType::DataArray);
    let c = contents(&r.items);
    assert_eq!(c[0], ("Book".into(), "[0]".into(), "title".into(), "pages: 300".into(), "data.record".into()));
    assert_eq!(c[1], ("code: X1\nkind: a".into(), "[1]".into(), "_record".into(), "".into(), "data.record".into()));
    let kv = JsonValue::Array(vec![
        obj(vec![("key", s("mode")), ("value", s("fast"))]),
        obj(vec![("key", n(1)), ("value", JsonValue::Bool(false))]),
    ]);
    let r = import_json_value(&kv, None);
    let c = contents(&r.items);
    assert_eq!(c[0], ("mode: fast".into(), "[0]".into(), "mode".into(), "".into(), "config".into()));
    assert_eq!(c[1].0, "unknown: false");
}

#[test]
fn test_import_embeddings_export() {
    let doc = obj(vec![
        ("documents", JsonValue::Array(vec![JsonValue::Array(vec![s("doc one"), s("")])])),
        ("ids", JsonValue::Array(vec![s("a"), s("b")])),
        ("metadatas", JsonValue::Array(vec![obj(vec![("src", s("web")), ("n", n(2))])])),
    ]);
    let r = import_json_value(&doc, None);
    assert_eq!(r.json_type, JsonFileType::EmbeddingsExport);
    assert_eq!(r.warnings.len(), 1);
    let c = contents(&r.items);
    assert_eq!(c.len(), 1);
    assert_eq!(c[0], ("doc one".into(), ".documents[0]".into(), "document".into(), "id: a, src: web, n: 2".into(), "embeddings.document".into()));
    let summary = format_import_summary(&r);
    assert_eq!(
        summary,
        "JSON Type: EmbeddingsExport\nTotal items extracted: 1\n\nWarnings:\n  - Extracting documents from embeddings export. Embeddings themselves are not stored.\n"
    );
}

#[test]
fn test_generic_extraction_and_depth() {
    let doc = obj(vec![("a", obj(vec![("b", JsonValue::Null), ("c", JsonValue::Array(vec![s("x"), n(1), s("y")]))])), ("d", JsonValue::Bool(true))]);
    let r = import_json_value(&doc, None);
    assert_eq!(r.json_type, JsonFileType::MixedObject);
    let c = contents(&r.items);
    assert_eq!(c[0], ("null".into(), "a.b".into(), "_null".into(), "".into(), "null".into()));
    assert_eq!(c[1], ("x, y".into(), "a.c".into(), "_array".into(), "3 items".into(), "text".into()));
    assert_eq!(c[2], ("true".into(), "d".into(), "_boolean".into(), "".into(), "boolean".into()));
    assert_eq!(r.stats.text_items, 1);
    let shallow = JsonImportConfig { max_depth: 0, ..JsonImportConfig::default() };
    let mut items = Vec::new();
    let mut warnings = Vec::new();
    extract_generic_json(&doc, "", &shallow, &mut items, &mut warnings, 0);
    assert!(items.is_empty());
    assert_eq!(warnings, vec!["Max depth 0 exceeded at a".to_string(), "Max depth 0 exceeded at d".to_string()]);
    let defaults = JsonImportConfig::default();
    assert!(defaults.include_metadata && defaults.explode_arrays);
    assert_eq!((defaults.max_depth, defaults.min_text_length), (10, 1));
}

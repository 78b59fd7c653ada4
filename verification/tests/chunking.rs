use robot_brain::models::{HierarchyLevel, MemoryType};
use robot_brain::tools::ingestor::semantic_chunker::{
    extract_function_name, get_file_type, parse_code, parse_document, parse_html, parse_json_document,
    parse_markdown, parse_plain_text, parse_xml, remove_script_style, split_sentences, strip_html_tags,
    strip_xml_tags, HierarchyNode,
};
use robot_brain::json::{JsonNumber, JsonValue};

#[test]
fn test_markdown_parsing() {
    let content = r##"# Introduction

This is the intro paragraph.

## Installation

Follow these steps:

1. Install
2. Configure

```bash
npm install
```

## Usage

Use it like this."##;

    let tree = parse_markdown(content, "readme.md");

    assert_eq!(tree.level, HierarchyLevel::Document);
    assert!(tree.children.len() >= 2, "Expected at least 2 sections, got {}", tree.children.len());
}

#[test]
fn test_sentence_splitting() {
    let text = "This is sentence one. This is sentence two! How about this?";
    let sentences = split_sentences(text);

    assert!(sentences.len() >= 3);
}

#[test]
fn test_code_parsing() {
    let content = r#"fn main() {
    println!("Hello");
}

fn other() {
    do_something();
}"#;

    let tree = parse_code(content, "main.rs");

    assert_eq!(tree.level, HierarchyLevel::Document);
    assert!(tree.children.len() >= 2);
}

#[test]
fn test_markdown_structure_exact() {
    let content = "intro line\n\n# Title\nfirst\nsecond\n\n```\ncode\n```\n";
    let tree = parse_markdown(content, "doc.md");
    assert_eq!(tree.content, "Document: doc.md");
    assert_eq!(tree.path, "doc.md");
    assert_eq!(tree.children.len(), 2);
    let para = &tree.children[0];
    assert_eq!(para.content, "intro line");
    assert_eq!(para.path, "doc.md/section[0]/paragraph[0]");
    let section = &tree.children[1];
    assert_eq!(section.content, "Title");
    assert_eq!(section.level, HierarchyLevel::Section);
    assert_eq!(section.path, "doc.md/section[0]");
    assert_eq!(section.children.len(), 2);
    assert_eq!(section.children[0].content, "first second");
    assert_eq!(section.children[0].path, "doc.md/section[0]/paragraph[0]");
    assert_eq!(section.children[1].content, "code");
    assert_eq!(section.children[1].path, "doc.md/section[0]/code_block[1]");
}

#[test]
fn test_sentences_exact() {
    let s = split_sentences("Hi. Is this the end? \"Yes.\" Short! ok");
    assert_eq!(s, vec!["Is this the end?".to_string(), "\" Short!".to_string()]);
    let s = split_sentences("The quick brown fox. The lazy dog sleeps!  Then wakes up");
    assert_eq!(s, vec!["The quick brown fox.", "The lazy dog sleeps!", "Then wakes up"]);
}

#[test]
fn test_plain_text_paragraphs() {
    let tree = parse_plain_text("  first para  \n\n\n\nsecond para", "notes.txt");
    assert_eq!(tree.children.len(), 2);
    assert_eq!(tree.children[0].content, "first para");
    assert_eq!(tree.children[0].path, "notes.txt/paragraph[0]");
    assert_eq!(tree.children[1].content, "second para");
    assert_eq!(tree.children[1].order_index, 1);
}

#[test]
fn test_long_paragraph_split_into_sentences() {
    let sentence = "This sentence is long enough to count as one sentence. ";
    let para = sentence.repeat(10);
    let tree = parse_plain_text(&para, "long.txt");
    assert_eq!(tree.children.len(), 1);
    let p = &tree.children[0];
    assert_eq!(p.content, "");
    assert_eq!(p.children.len(), 10);
    assert_eq!(p.children[3].level, HierarchyLevel::Sentence);
    assert_eq!(p.children[3].path, "long.txt/paragraph[0]/sentence[3]");
}

#[test]
fn test_code_without_functions_is_plain_text() {
    let tree = parse_code("let x = 1;\n\nlet y = 2;", "snippet.rs");
    assert_eq!(tree.content, "Document: snippet.rs");
    assert_eq!(tree.children.len(), 2);
}

#[test]
fn test_code_function_nodes() {
    let tree = parse_code("use x;\ndef run(a):\n    pass\nclass Thing:\n    x = 1", "m.py");
    assert_eq!(tree.content, "Code: m.py");
    assert_eq!(tree.children.len(), 2);
    assert_eq!(tree.children[0].content, "Line 2: run\n\ndef run(a):\n    pass");
    assert_eq!(tree.children[1].content, "Line 4: Thing\n\nclass Thing:\n    x = 1");
    assert_eq!(tree.children[1].path, "m.py/function[1]");
}

#[test]
fn test_function_names() {
    assert_eq!(extract_function_name("pub fn build(x: u8)"), "build");
    assert_eq!(extract_function_name("class Widget extends Base"), "Widget");
    assert_eq!(extract_function_name("no definition here"), "no definition here");
    assert_eq!(extract_function_name("class Foo:"), "Foo");
    assert_eq!(extract_function_name("class Bar(Base):"), "Bar");
    assert_eq!(extract_function_name("class Baz"), "Baz");
}

#[test]
fn test_html_and_xml_text() {
    assert_eq!(strip_html_tags("<p>Hello</p>"), "Hello");
    assert_eq!(strip_html_tags("<p>Hello</p>\n  <b>world</b>  \n\n"), "Hello\nworld");
    assert_eq!(strip_html_tags("a<script>x</script>b"), "ab");
    assert_eq!(strip_xml_tags("  <a>text</a> more "), "text more");
    assert_eq!(remove_script_style("x<script>bad</script>y"), "xy");
    assert_eq!(remove_script_style("x<style>never closed"), "x<style>never closed");
    assert_eq!(remove_script_style("<script>é</script>b"), "b");
    assert_eq!(remove_script_style("a<STYLE>p{}</STYLE>c"), "a<STYLE>p{}</STYLE>c");
    assert_eq!(remove_script_style("a<style>p{}</STYLE>c"), "ac");
    let html = parse_html("<p>One</p>", "page.html");
    assert_eq!(html.children.len(), 1);
    let xml = parse_xml("<r><a>Alpha</a></r>", "d.xml");
    assert_eq!(xml.children[0].content, "Alpha");
}

#[test]
fn test_file_types() {
    assert_eq!(get_file_type("MD"), "markdown");
    assert_eq!(get_file_type("jsonl"), "json");
    assert_eq!(get_file_type("htm"), "html");
    assert_eq!(get_file_type("go"), "code");
    assert_eq!(get_file_type("csv"), "text");
}

#[test]
fn test_flatten_links_parents() {
    let mut root = HierarchyNode::new("root".to_string(), HierarchyLevel::Document, 0, "r".to_string());
    let mut section = HierarchyNode::new("s".to_string(), HierarchyLevel::Section, 0, "r/s".to_string());
    section.children.push(HierarchyNode::new("p".to_string(), HierarchyLevel::Paragraph, 0, "r/s/p".to_string()));
    root.children.push(section);
    root.children.push(HierarchyNode::new("q".to_string(), HierarchyLevel::Paragraph, 1, "r/q".to_string()));
    let cards = root.flatten();
    assert_eq!(cards.len(), 4);
    assert_eq!(cards[0].parent_id, None);
    assert_eq!(cards[1].parent_id.as_deref(), Some(cards[0].id.as_str()));
    assert_eq!(cards[2].parent_id.as_deref(), Some(cards[1].id.as_str()));
    assert_eq!(cards[3].parent_id.as_deref(), Some(cards[0].id.as_str()));
    assert_eq!(cards[2].content, "p");
    assert!(cards.iter().all(|c| c.memory_type == MemoryType::File && c.id.len() == 36));
}

fn s(x: &str) -> JsonValue {
    JsonValue::String(x.to_string())
}

#[test]
fn test_json_document_nodes() {
    let msg = JsonValue::Object(vec![
        ("content".to_string(), s("hello")),
        ("role".to_string(), s("user")),
    ]);
    let meta = JsonValue::Object(vec![
        ("count".to_string(), JsonValue::Number(JsonNumber { text: "3".to_string(), as_i64: Some(3), f64_text: "3".to_string() })),
        ("flag".to_string(), JsonValue::Bool(true)),
    ]);
    let doc = JsonValue::Array(vec![msg, meta, s(""), s("text")]);
    let tree = parse_json_document("ignored", "f.json", Some(&doc));
    assert_eq!(tree.children.len(), 3);
    assert_eq!(tree.children[0].content, "hello\n\n[Context: role: user]");
    assert_eq!(tree.children[0].path, "f.json/item[0]");
    assert_eq!(tree.children[1].content, "count: 3, flag: true");
    assert_eq!(tree.children[1].path, "f.json/metadata");
    assert_eq!(tree.children[2].path, "f.json/text[3]");
    let fallback = parse_json_document("plain words", "f.json", None);
    assert_eq!(fallback.children[0].content, "plain words");
}

#[test]
fn test_parse_document_dispatch() {
    let md = parse_document("# T x\n", "a", "md", None);
    assert_eq!(md.children[0].level, HierarchyLevel::Section);
    let other = parse_document("words", "a", "weird", None);
    assert_eq!(other.children[0].content, "words");
}

#[test]
fn test_markdown_heading_levels_and_paragraph_placement() {
    let deep = parse_markdown("### Deep\ntext", "f.md");
    assert_eq!(deep.children[0].level, HierarchyLevel::Subsection);
    let two = parse_markdown("## Two\ntext", "f.md");
    assert_eq!(two.children[0].level, HierarchyLevel::Section);
    let t = parse_markdown("# A\ntext\n# B", "f");
    assert_eq!(t.children.len(), 2);
    assert_eq!(t.children[0].content, "A");
    assert_eq!(t.children[0].children.len(), 1);
    assert_eq!(t.children[0].children[0].content, "text");
    assert_eq!(t.children[0].children[0].path, "f/section[0]/paragraph[0]");
    assert_eq!(t.children[1].content, "B");
    assert!(t.children[1].children.is_empty());
}

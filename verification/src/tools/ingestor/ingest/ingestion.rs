//! Choices made while ingesting files.

use vstd::prelude::*;
use crate::json::JsonValue;
use crate::json::JsonSpec;
use crate::models::{HierarchyLevel, MemoryCard, MemoryType};
use crate::text::{append_chars, append_decimal, decimal, from_chars, owned, to_chars, trim, trim_chars};
use crate::tools::ingestor::json_importer::{item, item_view, ExtractedJsonData};
use crate::tools::ingestor::text_extractor::{text_quality, text_quality_of, TextQuality};
use vstd::utf8::encode_utf8;
use crate::tools::ingestor::semantic_chunker::{
    card_fields_match, document_tree, file_type_for, flat_node, get_file_type, parse_document,
    FlatEntry,
};

verus! {

/// The memory kind for a (lowercased) name given to ingestion: file,
/// conversation, code or note; anything else is a file.
pub open spec fn ingested_type_for(s: Seq<char>) -> MemoryType {
    if s == "file"@ {
        MemoryType::File
    } else if s == "conversation"@ {
        MemoryType::Conversation
    } else if s == "code"@ {
        MemoryType::Code
    } else if s == "note"@ {
        MemoryType::Note
    } else {
        MemoryType::File
    }
}

/// Parse the memory kind for ingested content, ignoring case.
pub fn parse_memory_type(s: &str) -> (r: MemoryType)
    ensures
        r == ingested_type_for(crate::text::spec_to_lowercase(s@)),
{
    let lower = crate::text::to_lowercase(s);
    let l = lower.as_str();
    if crate::text::str_eq(l, "file") {
        MemoryType::File
    } else if crate::text::str_eq(l, "conversation") {
        MemoryType::Conversation
    } else if crate::text::str_eq(l, "code") {
        MemoryType::Code
    } else if crate::text::str_eq(l, "note") {
        MemoryType::Note
    } else {
        MemoryType::File
    }
}

/// The records from position 0 on carry the entries `fl`, each naming
/// `source` as the file it came from.
pub open spec fn cards_match_sourced(cards: Seq<MemoryCard>, fl: Seq<FlatEntry>, source: Seq<char>) -> bool {
    &&& cards.len() == fl.len()
    &&& forall|k: int|
        0 <= k < fl.len() ==> card_fields_match(cards, k, #[trigger] fl[k]) && (
        cards[k].file_source matches Some(f) && f@ == source)
}

/// The same record but for its source file.
pub open spec fn same_but_source(a: MemoryCard, b: MemoryCard) -> bool {
    &&& a.id == b.id
    &&& a.content == b.content
    &&& a.memory_type == b.memory_type
    &&& a.parent_id == b.parent_id
    &&& a.hierarchy_level == b.hierarchy_level
    &&& a.order_index == b.order_index
    &&& a.path == b.path
}

/// Name `source` as the file of every record.
pub fn with_file_source(cards: Vec<MemoryCard>, source: &str) -> (r: Vec<MemoryCard>)
    ensures
        r@.len() == cards@.len(),
        forall|k: int|
            0 <= k < r@.len() ==> same_but_source(#[trigger] r@[k], cards@[k]) && (
            r@[k].file_source matches Some(f) && f@ == source@),
{
    let ghost all = cards@;
    let mut rest = cards;
    let n = rest.len();
    let mut out: Vec<MemoryCard> = Vec::new();
    while rest.len() > 0
        invariant
            all.len() == n,
            out@.len() + rest@.len() == n,
            rest@ == all.skip(out@.len() as int),
            forall|k: int|
                0 <= k < out@.len() ==> same_but_source(#[trigger] out@[k], all[k]) && (
                out@[k].file_source matches Some(f) && f@ == source@),
        decreases rest@.len(),
    {
        let mut c = rest.remove(0);
        proof {
            assert(c == all[out@.len() as int]);
            assert(all.skip(out@.len() as int + 1) =~= all.skip(out@.len() as int).drop_first());
        }
        c.file_source = Some(owned(source));
        out.push(c);
    }
    out
}

proof fn lemma_sourced(before: Seq<MemoryCard>, after: Seq<MemoryCard>, fl: Seq<FlatEntry>, source: Seq<char>)
    requires
        before.len() == fl.len(),
        after.len() == before.len(),
        forall|k: int| 0 <= k < fl.len() ==> card_fields_match(before, k, #[trigger] fl[k]),
        forall|k: int|
            0 <= k < after.len() ==> same_but_source(#[trigger] after[k], before[k]) && (
            after[k].file_source matches Some(f) && f@ == source),
    ensures
        cards_match_sourced(after, fl, source),
{
    assert forall|k: int| 0 <= k < fl.len() implies card_fields_match(after, k, #[trigger] fl[k]) && (
    after[k].file_source matches Some(f) && f@ == source) by {
        assert(card_fields_match(before, k, fl[k]));
        assert(same_but_source(after[k], before[k]));
        match fl[k].parent {
            Some(j) => {
                assert(same_but_source(after[j], before[j]));
            },
            None => {},
        }
    }
}

/// Why a text file was not turned into records.
#[derive(Debug, Clone, Copy, PartialEq, Eq, Structural)]
pub enum TextFileRefusal {
    /// The text is blank.
    NoText,
    /// The text is not readable; the verdict of `text_quality` says why.
    Unreadable(TextQuality),
}

/// The message of a refusal: "File contains no text", or "Content is not
/// readable text: " and the reason the verdict is given in (`reason`, the
/// text app writes for it, with its percentages).
pub fn text_refusal_message(refusal: TextFileRefusal, reason: &str) -> (r: String)
    ensures
        refusal is NoText ==> r@ == "File contains no text"@,
        refusal is Unreadable ==> r@ == "Content is not readable text: "@ + reason@,
{
    match refusal {
        TextFileRefusal::NoText => owned("File contains no text"),
        TextFileRefusal::Unreadable(_) => {
            let mut m = owned("Content is not readable text: ");
            m.append(reason);
            m
        },
    }
}

/// The records a text file becomes. Blank text is refused as `NoText`;
/// text that `text_quality` does not find readable is refused with its
/// verdict. Otherwise the text is parsed as a document of the kind its
/// extension names, flattened, and every record names `file_source` as its
/// file.
pub fn text_file_memories(
    text: &str,
    filename: &str,
    extension: &str,
    file_source: &str,
    parsed: Option<&JsonValue>,
) -> (r: Result<Vec<MemoryCard>, TextFileRefusal>)
    ensures
        trim(text@).len() == 0 ==> r == Err::<Vec<MemoryCard>, TextFileRefusal>(TextFileRefusal::NoText),
        trim(text@).len() > 0 && text_quality_of(text@) != TextQuality::Valid ==> r == Err::<
            Vec<MemoryCard>,
            TextFileRefusal,
        >(TextFileRefusal::Unreadable(text_quality_of(text@))),
        trim(text@).len() > 0 && text_quality_of(text@) == TextQuality::Valid ==> (r matches Ok(cards)
            && cards_match_sourced(
            cards@,
            flat_node(
                document_tree(
                    text@,
                    filename@,
                    file_type_for(crate::text::spec_to_lowercase(extension@)),
                    match parsed {
                        Some(v) => Some(v@),
                        None => None,
                    },
                ),
                None,
                0,
            ),
            file_source@,
        )),
{
    let chars = to_chars(text);
    let trimmed = trim_chars(chars.as_slice());
    if trimmed.len() == 0 {
        return Err(TextFileRefusal::NoText);
    }
    let q = text_quality(text);
    match q {
        TextQuality::Valid => {},
        _ => return Err(TextFileRefusal::Unreadable(q)),
    }
    let file_type = get_file_type(extension);
    let tree = parse_document(text, filename, file_type, parsed);
    let cards = tree.flatten();
    let ghost before = cards@;
    let ghost fl = flat_node(tree@, None, 0);
    assert forall|k: int| 0 <= k < fl.len() implies card_fields_match(before, k, #[trigger] fl[k]) by {
        assert(crate::tools::ingestor::semantic_chunker::card_matches(before, 0 + k, fl[k]));
    }
    let out = with_file_source(cards, file_source);
    proof {
        lemma_sourced(before, out@, fl, file_source@);
    }
    Ok(out)
}

/// What a JSON file without structured items is stored as: its raw text,
/// at path "root", field "raw", of type "raw.json".
pub fn raw_json_item(raw_content: String) -> (r: ExtractedJsonData)
    ensures
        item_view(r) == item(
            raw_content@,
            "root"@,
            "raw"@,
            Seq::empty(),
            "raw.json"@,
            JsonSpec::Str("raw file content"@),
        ),
{
    let r = ExtractedJsonData {
        content: raw_content,
        json_path: owned("root"),
        field_name: owned("raw"),
        sibling_context: owned(""),
        data_type: owned("raw.json"),
        raw_value: JsonValue::String(owned("raw file content")),
    };
    proof {
        reveal_strlit("");
    }
    r
}

/// "<file>[<index>]": the name a long JSON item is parsed under.
pub open spec fn json_item_name(filename: Seq<char>, idx: usize) -> Seq<char> {
    filename + "["@ + decimal(idx as nat) + "]"@
}

/// "<file>/item[<index>]": the path of a short JSON item.
pub open spec fn json_item_path(filename: Seq<char>, idx: usize) -> Seq<char> {
    filename + "/item["@ + decimal(idx as nat) + "]"@
}

/// The records one JSON item (its memory text `content`, at position `idx`)
/// becomes. Text over 1000 bytes is parsed as a JSON document named
/// `json_item_name` (`parsed` is what parsing the text gave) and flattened;
/// shorter text is one top-level section record. Every record names
/// `file_source` as its file.
pub fn json_item_memories(
    content: &str,
    idx: usize,
    filename: &str,
    memory_type: MemoryType,
    file_source: &str,
    parsed: Option<&JsonValue>,
) -> (r: Vec<MemoryCard>)
    ensures
        encode_utf8(content@).len() > 1000 ==> cards_match_sourced(
            r@,
            flat_node(
                document_tree(
                    content@,
                    json_item_name(filename@, idx),
                    "json"@,
                    match parsed {
                        Some(v) => Some(v@),
                        None => None,
                    },
                ),
                None,
                0,
            ),
            file_source@,
        ),
        encode_utf8(content@).len() <= 1000 ==> {
            &&& r@.len() == 1
            &&& r@[0].id@.len() == 36
            &&& r@[0].content@ == content@
            &&& r@[0].memory_type == memory_type
            &&& r@[0].parent_id is None
            &&& r@[0].hierarchy_level == HierarchyLevel::Section
            &&& r@[0].order_index == idx
            &&& r@[0].path@ == json_item_path(filename@, idx)
            &&& r@[0].file_source matches Some(f) && f@ == file_source@
        },
{
    if content.as_bytes().len() > 1000 {
        let mut name = to_chars(filename);
        append_chars(&mut name, to_chars("[").as_slice());
        append_decimal(&mut name, idx as u64);
        append_chars(&mut name, to_chars("]").as_slice());
        let name = from_chars(name.as_slice());
        let json = "json";
        proof {
            reveal_strlit("json");
        }
        let tree = parse_document(content, name.as_str(), json, parsed);
        let cards = tree.flatten();
        let ghost before = cards@;
        let ghost fl = flat_node(tree@, None, 0);
        assert forall|k: int| 0 <= k < fl.len() implies card_fields_match(before, k, #[trigger] fl[k]) by {
            assert(crate::tools::ingestor::semantic_chunker::card_matches(before, 0 + k, fl[k]));
        }
        let out = with_file_source(cards, file_source);
        proof {
            lemma_sourced(before, out@, fl, file_source@);
        }
        out
    } else {
        let mut path = to_chars(filename);
        append_chars(&mut path, to_chars("/item[").as_slice());
        append_decimal(&mut path, idx as u64);
        append_chars(&mut path, to_chars("]").as_slice());
        let card = MemoryCard {
            id: crate::ids::new_id(),
            content: owned(content),
            memory_type,
            parent_id: None,
            hierarchy_level: HierarchyLevel::Section,
            order_index: idx,
            path: from_chars(path.as_slice()),
            file_source: Some(owned(file_source)),
        };
        let mut out: Vec<MemoryCard> = Vec::new();
        out.push(card);
        out
    }
}

} // verus!

//! Structured JSON import: recognises common JSON layouts (chat logs, record
//! arrays, embeddings exports) and extracts the text in them as items that
//! become memories.

use vstd::prelude::*;
use crate::json::{
    JsonValue, JsonSpec, json_view, json_views, member_views, json_get, json_str, json_text,
    member_get, get_str, lemma_array_view, lemma_object_view, find_member, get, as_str,
    get_str_exec, to_json_string,
};
use crate::text::{
    to_chars, from_chars, join, join_chars, views_of, decimal, append_chars, append_decimal,
    string_views, slice_to_vec,
};

verus! {

/// Configuration for JSON import.
#[derive(Debug, Clone, Copy)]
pub struct JsonImportConfig {
    /// Include metadata fields (IDs, timestamps, etc.) as context
    pub include_metadata: bool,
    /// Maximum depth to recurse into nested objects
    pub max_depth: usize,
    /// Minimum text length to store (skip very short values)
    pub min_text_length: usize,
    /// Extract array items as individual memories
    pub explode_arrays: bool,
}

impl Default for JsonImportConfig {
    fn default() -> (r: Self)
        ensures
            r.include_metadata,
            r.max_depth == 10,
            r.min_text_length == 1,
            r.explode_arrays,
    {
        JsonImportConfig { include_metadata: true, max_depth: 10, min_text_length: 1, explode_arrays: true }
    }
}

/// A single piece of extracted JSON data.
#[derive(Debug)]
pub struct ExtractedJsonData {
    /// The actual text content
    pub content: String,
    /// JSON path in the original file (e.g., "messages[0].content")
    pub json_path: String,
    /// The field name (e.g., "content", "title")
    pub field_name: String,
    /// Context from sibling fields (e.g., "role: user, id: 123")
    pub sibling_context: String,
    /// The type of data (conversation, data, metadata, etc.)
    pub data_type: String,
    /// Raw JSON value for reference
    pub raw_value: JsonValue,
}

/// The mathematical form of an extracted item.
#[verifier::ext_equal]
pub struct ItemSpec {
    pub content: Seq<char>,
    pub json_path: Seq<char>,
    pub field_name: Seq<char>,
    pub sibling_context: Seq<char>,
    pub data_type: Seq<char>,
    pub raw_value: JsonSpec,
}

/// The form of an item.
pub open spec fn item_view(d: ExtractedJsonData) -> ItemSpec {
    ItemSpec {
        content: d.content@,
        json_path: d.json_path@,
        field_name: d.field_name@,
        sibling_context: d.sibling_context@,
        data_type: d.data_type@,
        raw_value: d.raw_value@,
    }
}

/// The forms of a sequence of items.
pub open spec fn item_views(v: Seq<ExtractedJsonData>) -> Seq<ItemSpec> {
    Seq::new(v.len(), |i: int| item_view(v[i]))
}

/// An item with the given fields.
pub open spec fn item(
    content: Seq<char>,
    json_path: Seq<char>,
    field_name: Seq<char>,
    sibling_context: Seq<char>,
    data_type: Seq<char>,
    raw_value: JsonSpec,
) -> ItemSpec {
    ItemSpec { content, json_path, field_name, sibling_context, data_type, raw_value }
}

/// The memory text of an item: its content, its context when there is
/// any, and its source path.
pub open spec fn memory_content(d: ItemSpec) -> Seq<char> {
    let base = if d.sibling_context.len() > 0 {
        d.content + "\n\n[Context: "@ + d.sibling_context + "]"@
    } else {
        d.content
    };
    base + "\n\n[Source: "@ + d.json_path + "]"@
}

impl ExtractedJsonData {
    /// Convert to memory content string; see `memory_content`.
    pub fn to_memory_content(&self) -> (r: String)
        ensures
            r@ == memory_content(item_view(*self)),
    {
        let mut c = to_chars(self.content.as_str());
        let ctx = to_chars(self.sibling_context.as_str());
        if ctx.len() > 0 {
            let open = to_chars("\n\n[Context: ");
            append_chars(&mut c, open.as_slice());
            append_chars(&mut c, ctx.as_slice());
            let close = to_chars("]");
            append_chars(&mut c, close.as_slice());
        }
        let src = to_chars("\n\n[Source: ");
        append_chars(&mut c, src.as_slice());
        let p = to_chars(self.json_path.as_str());
        append_chars(&mut c, p.as_slice());
        let close = to_chars("]");
        append_chars(&mut c, close.as_slice());
        from_chars(c.as_slice())
    }
}

/// Statistics about the import.
#[derive(Debug, Default)]
pub struct ImportStats {
    pub total_items: usize,
    pub text_items: usize,
    pub metadata_items: usize,
    pub nested_items: usize,
    pub skipped_items: usize,
}

/// Types of JSON files we can detect.
#[derive(Debug, Clone, Copy, PartialEq, Eq, Structural)]
pub enum JsonFileType {
    /// Array of chat messages
    Conversation,
    /// Array of similar objects (products, users, etc.)
    DataArray,
    /// Single object with mixed fields
    MixedObject,
    /// Key-value pairs / configuration
    Config,
    /// Chroma/LangChain export
    EmbeddingsExport,
    /// Unknown structure
    Unknown,
}

/// Result of importing a JSON file.
#[derive(Debug)]
pub struct JsonImportResult {
    /// All extracted data pieces
    pub items: Vec<ExtractedJsonData>,
    /// Detected type of JSON file
    pub json_type: JsonFileType,
    /// Summary statistics
    pub stats: ImportStats,
    /// Any warnings
    pub warnings: Vec<String>,
}

// ---------------------------------------------------------------------------
// Detection
// ---------------------------------------------------------------------------

/// The object has a member named `key`.
pub open spec fn has_key(ms: Seq<(Seq<char>, JsonSpec)>, key: Seq<char>) -> bool {
    member_get(ms, key) is Some
}

/// The first member value that is an array, as its items.
pub open spec fn first_array(ms: Seq<(Seq<char>, JsonSpec)>) -> Option<Seq<JsonSpec>>
    decreases ms.len(),
{
    if ms.len() == 0 {
        None
    } else {
        match ms[0].1 {
            JsonSpec::Array(items) => Some(items),
            _ => first_array(ms.drop_first()),
        }
    }
}

/// Every item is an object.
pub open spec fn all_objects(items: Seq<JsonSpec>) -> bool {
    forall|i: int| 0 <= i < items.len() ==> items[i] is Object
}

/// Every item is an object with a `role`, `content` or `message` member.
pub open spec fn all_messages(items: Seq<JsonSpec>) -> bool {
    forall|i: int|
        0 <= i < items.len() ==> items[i] is Object && (json_get(items[i], "role"@) is Some
            || json_get(items[i], "content"@) is Some || json_get(items[i], "message"@) is Some)
}

/// The layout of a JSON document.
pub open spec fn json_type_of(v: JsonSpec) -> JsonFileType {
    match v {
        JsonSpec::Object(ms) => if has_key(ms, "documents"@) || has_key(ms, "embeddings"@) {
            JsonFileType::EmbeddingsExport
        } else if has_key(ms, "messages"@) || has_key(ms, "conversation"@) || has_key(ms, "chat"@) {
            JsonFileType::Conversation
        } else {
            match first_array(ms) {
                Some(arr) => if arr.len() > 0 && all_objects(arr) {
                    JsonFileType::DataArray
                } else {
                    JsonFileType::MixedObject
                },
                None => JsonFileType::MixedObject,
            }
        },
        JsonSpec::Array(arr) => if arr.len() > 0 && all_messages(arr) {
            JsonFileType::Conversation
        } else if arr.len() > 0 && all_objects(arr) {
            JsonFileType::DataArray
        } else {
            JsonFileType::Unknown
        },
        _ => JsonFileType::Unknown,
    }
}

fn has_key_exec(members: &Vec<(String, JsonValue)>, key: &str) -> (r: bool)
    ensures
        r == has_key(member_views(members@), key@),
{
    find_member(members, key).is_some()
}

/// Position of the first array-valued member.
fn first_array_exec(members: &Vec<(String, JsonValue)>) -> (r: Option<usize>)
    ensures
        match r {
            Some(i) => i < members@.len() && members@[i as int].1 is Array && first_array(
                member_views(members@),
            ) == Some(json_view(members@[i as int].1)->Array_0),
            None => first_array(member_views(members@)) is None,
        },
{
    let ghost ms = member_views(members@);
    let mut i: usize = 0;
    assert(ms.skip(0) =~= ms);
    while i < members.len()
        invariant
            i <= members@.len(),
            ms == member_views(members@),
            first_array(ms) == first_array(ms.skip(i as int)),
        decreases members@.len() - i,
    {
        assert(ms.skip(i as int).drop_first() =~= ms.skip(i + 1));
        assert(ms.skip(i as int)[0] == ms[i as int]);
        match &members[i].1 {
            JsonValue::Array(_) => {
                return Some(i);
            },
            _ => {},
        }
        i += 1;
    }
    assert(ms.skip(i as int) =~= Seq::<(Seq<char>, JsonSpec)>::empty());
    None
}

fn all_objects_exec(items: &Vec<JsonValue>) -> (r: bool)
    ensures
        r == all_objects(json_views(items@)),
{
    let mut i: usize = 0;
    while i < items.len()
        invariant
            i <= items@.len(),
            forall|k: int| 0 <= k < i ==> json_views(items@)[k] is Object,
        decreases items@.len() - i,
    {
        match &items[i] {
            JsonValue::Object(_) => {},
            _ => {
                assert(!(json_views(items@)[i as int] is Object));
                return false;
            },
        }
        i += 1;
    }
    true
}

fn all_messages_exec(items: &Vec<JsonValue>) -> (r: bool)
    ensures
        r == all_messages(json_views(items@)),
{
    let mut i: usize = 0;
    while i < items.len()
        invariant
            i <= items@.len(),
            forall|k: int|
                0 <= k < i ==> json_views(items@)[k] is Object && (json_get(json_views(items@)[k], "role"@) is Some
                    || json_get(json_views(items@)[k], "content"@) is Some || json_get(
                    json_views(items@)[k],
                    "message"@,
                ) is Some),
        decreases items@.len() - i,
    {
        let v = &items[i];
        let ok = match v {
            JsonValue::Object(_) => get(v, "role").is_some() || get(v, "content").is_some() || get(
                v,
                "message",
            ).is_some(),
            _ => false,
        };
        if !ok {
            assert(json_views(items@)[i as int] == items@[i as int]@);
            return false;
        }
        i += 1;
    }
    true
}

/// Detect the layout of a JSON document; see `json_type_of`.
pub fn detect_json_type(value: &JsonValue) -> (r: JsonFileType)
    ensures
        r == json_type_of(value@),
{
    match value {
        JsonValue::Object(members) => {
            proof { lemma_object_view(*members); }
            if has_key_exec(members, "documents") || has_key_exec(members, "embeddings") {
                return JsonFileType::EmbeddingsExport;
            }
            if has_key_exec(members, "messages") || has_key_exec(members, "conversation") || has_key_exec(
                members,
                "chat",
            ) {
                return JsonFileType::Conversation;
            }
            match first_array_exec(members) {
                Some(i) => match &members[i].1 {
                    JsonValue::Array(arr) => {
                        proof { lemma_array_view(*arr); }
                        if arr.len() > 0 && all_objects_exec(arr) {
                            JsonFileType::DataArray
                        } else {
                            JsonFileType::MixedObject
                        }
                    },
                    _ => JsonFileType::MixedObject,
                },
                None => JsonFileType::MixedObject,
            }
        },
        JsonValue::Array(arr) => {
            proof { lemma_array_view(*arr); }
            if arr.len() > 0 {
                if all_messages_exec(arr) {
                    return JsonFileType::Conversation;
                }
                if all_objects_exec(arr) {
                    return JsonFileType::DataArray;
                }
            }
            JsonFileType::Unknown
        },
        _ => JsonFileType::Unknown,
    }
}


// ---------------------------------------------------------------------------
// Building items
// ---------------------------------------------------------------------------

/// UTF-8 length of a text.
pub open spec fn byte_len(s: Seq<char>) -> nat {
    vstd::utf8::encode_utf8(s).len()
}

/// `{key}: {value}`.
pub open spec fn key_value(key: Seq<char>, value: Seq<char>) -> Seq<char> {
    key + ": "@ + value
}

/// The views of a list of string slices.
pub open spec fn str_views(s: Seq<&str>) -> Seq<Seq<char>> {
    Seq::new(s.len(), |i: int| s[i]@)
}

/// `{path}.{key}`.
pub open spec fn dotted(path: Seq<char>, key: Seq<char>) -> Seq<char> {
    path + "."@ + key
}

/// `{path}[{i}]`.
pub open spec fn index_path(path: Seq<char>, i: nat) -> Seq<char> {
    path + "["@ + decimal(i) + "]"@
}

fn byte_len_exec(s: &[char]) -> (r: usize)
    ensures
        r == byte_len(s@),
{
    let st = from_chars(s);
    st.as_str().as_bytes().len()
}

fn str_byte_len(s: &str) -> (r: usize)
    ensures
        r == byte_len(s@),
{
    s.as_bytes().len()
}

fn key_value_exec(key: &[char], value: &[char]) -> (r: Vec<char>)
    ensures
        r@ == key_value(key@, value@),
{
    let mut v = slice_to_vec(key, 0, key.len());
    assert(v@ =~= key@);
    let sep = to_chars(": ");
    append_chars(&mut v, sep.as_slice());
    append_chars(&mut v, value);
    v
}

fn dotted_exec(path: &[char], key: &[char]) -> (r: Vec<char>)
    ensures
        r@ == dotted(path@, key@),
{
    let mut v = slice_to_vec(path, 0, path.len());
    assert(v@ =~= path@);
    v.push('.');
    append_chars(&mut v, key);
    proof { reveal_strlit("."); }
    assert(v@ =~= dotted(path@, key@));
    v
}

fn index_path_exec(path: &[char], i: usize) -> (r: Vec<char>)
    ensures
        r@ == index_path(path@, i as nat),
{
    let mut v = slice_to_vec(path, 0, path.len());
    assert(v@ =~= path@);
    let open = to_chars("[");
    append_chars(&mut v, open.as_slice());
    append_decimal(&mut v, i as u64);
    let close = to_chars("]");
    append_chars(&mut v, close.as_slice());
    v
}

fn new_item(
    content: &[char],
    json_path: &[char],
    field_name: &[char],
    sibling_context: &[char],
    data_type: &str,
    raw_value: JsonValue,
) -> (r: ExtractedJsonData)
    ensures
        item_view(r) == item(content@, json_path@, field_name@, sibling_context@, data_type@, raw_value@),
{
    ExtractedJsonData {
        content: from_chars(content),
        json_path: from_chars(json_path),
        field_name: from_chars(field_name),
        sibling_context: from_chars(sibling_context),
        data_type: crate::text::owned(data_type),
        raw_value,
    }
}

fn push_item(items: &mut Vec<ExtractedJsonData>, d: ExtractedJsonData)
    ensures
        item_views(final(items)@) == item_views(old(items)@).push(item_view(d)),
{
    items.push(d);
    assert(item_views(items@) =~= item_views(old(items)@).push(item_view(d)));
}

// ---------------------------------------------------------------------------
// Messages
// ---------------------------------------------------------------------------

/// `key: value` for each of `keys`, in order, whose member is a string.
pub open spec fn string_pairs(v: JsonSpec, keys: Seq<Seq<char>>) -> Seq<Seq<char>>
    decreases keys.len(),
{
    if keys.len() == 0 {
        Seq::empty()
    } else {
        let prev = string_pairs(v, keys.drop_last());
        match get_str(v, keys.last()) {
            Some(s) => prev.push(key_value(keys.last(), s)),
            None => prev,
        }
    }
}

/// Members that give a message its context.
pub open spec fn context_fields() -> Seq<Seq<char>> {
    seq!["role"@, "speaker"@, "author"@, "timestamp"@, "date"@, "time"@, "sender"@, "id"@, "_id"@]
}

/// Members that hold the text of a message.
pub open spec fn message_content_fields() -> Seq<Seq<char>> {
    seq!["content"@, "text"@, "message"@, "body"@, "description"@, "value"@]
}

/// The first of `fields` whose member is a string of at least `min` bytes:
/// its text, its name and its value.
pub open spec fn first_content(v: JsonSpec, fields: Seq<Seq<char>>, min: nat) -> Option<(Seq<char>, Seq<char>, JsonSpec)>
    decreases fields.len(),
{
    if fields.len() == 0 {
        None
    } else {
        match json_get(v, fields[0]) {
            Some(x) => match json_str(x) {
                Some(t) => if byte_len(t) >= min {
                    Some((t, fields[0], x))
                } else {
                    first_content(v, fields.drop_first(), min)
                },
                None => first_content(v, fields.drop_first(), min),
            },
            None => first_content(v, fields.drop_first(), min),
        }
    }
}

/// Every string member of at least `min` bytes as an item of kind
/// `conversation.other`.
pub open spec fn other_strings(ms: Seq<(Seq<char>, JsonSpec)>, path: Seq<char>, ctx: Seq<char>, min: nat) -> Seq<ItemSpec>
    decreases ms.len(),
{
    if ms.len() == 0 {
        Seq::empty()
    } else {
        let prev = other_strings(ms.drop_last(), path, ctx, min);
        let (k, x) = ms.last();
        match json_str(x) {
            Some(t) => if byte_len(t) >= min {
                prev.push(item(t, dotted(path, k), k, ctx, "conversation.other"@, x))
            } else {
                prev
            },
            None => prev,
        }
    }
}

/// The items of one message object: its text with its context, or, when it
/// has no text member, all its long enough strings.
pub open spec fn message_items(v: JsonSpec, path: Seq<char>, cfg: JsonImportConfig) -> Seq<ItemSpec> {
    match v {
        JsonSpec::Object(ms) => {
            let ctx = join(string_pairs(v, context_fields()), ", "@);
            match first_content(v, message_content_fields(), cfg.min_text_length as nat) {
                Some(c) => seq![item(c.0, dotted(path, c.1), c.1, ctx, "conversation.message"@, c.2)],
                None => other_strings(ms, path, ctx, cfg.min_text_length as nat),
            }
        },
        _ => Seq::empty(),
    }
}

fn string_pairs_exec(v: &JsonValue, keys: &[&str]) -> (r: Vec<Vec<char>>)
    ensures
        views_of(r@) == string_pairs(v@, str_views(keys@)),
{
    let ghost ks = str_views(keys@);
    let mut out: Vec<Vec<char>> = Vec::new();
    let mut i: usize = 0;
    assert(ks.take(0) =~= Seq::<Seq<char>>::empty());
    assert(views_of(out@) =~= Seq::<Seq<char>>::empty());
    while i < keys.len()
        invariant
            i <= keys@.len(),
            ks == str_views(keys@),
            views_of(out@) == string_pairs(v@, ks.take(i as int)),
        decreases keys@.len() - i,
    {
        assert(ks.take(i + 1).drop_last() =~= ks.take(i as int));
        assert(ks.take(i + 1).last() == keys@[i as int]@);
        match get_str_exec(v, keys[i]) {
            Some(s) => {
                let k = to_chars(keys[i]);
                let sv = to_chars(s);
                let ghost o0 = views_of(out@);
                let kv = key_value_exec(k.as_slice(), sv.as_slice());
                let ghost kvv = kv@;
                out.push(kv);
                assert(views_of(out@) =~= o0.push(kvv));
            },
            None => {},
        }
        i += 1;
    }
    assert(ks.take(keys@.len() as int) =~= ks);
    out
}

/// `first_content` with the found member's position in `fields`.
fn first_content_exec<'a>(v: &'a JsonValue, fields: &[&str], min: usize) -> (r: Option<(&'a str, usize, &'a JsonValue)>)
    ensures
        match r {
            Some(c) => c.1 < fields@.len() && first_content(v@, str_views(fields@), min as nat) == Some(
                (c.0@, fields@[c.1 as int]@, c.2@),
            ),
            None => first_content(v@, str_views(fields@), min as nat) is None,
        },
{
    let ghost fs = str_views(fields@);
    let mut i: usize = 0;
    assert(fs.skip(0) =~= fs);
    while i < fields.len()
        invariant
            i <= fields@.len(),
            fs == str_views(fields@),
            first_content(v@, fs, min as nat) == first_content(v@, fs.skip(i as int), min as nat),
        decreases fields@.len() - i,
    {
        assert(fs.skip(i as int).drop_first() =~= fs.skip(i + 1));
        assert(fs.skip(i as int)[0] == fields@[i as int]@);
        match get(v, fields[i]) {
            Some(x) => match as_str(x) {
                Some(t) => {
                    if str_byte_len(t) >= min {
                        return Some((t, i, x));
                    }
                },
                None => {},
            },
            None => {},
        }
        i += 1;
    }
    assert(fs.skip(i as int) =~= Seq::<Seq<char>>::empty());
    None
}

fn other_strings_exec(
    members: &Vec<(String, JsonValue)>,
    path: &[char],
    ctx: &[char],
    min: usize,
    items: &mut Vec<ExtractedJsonData>,
)
    ensures
        item_views(final(items)@) == item_views(old(items)@) + other_strings(member_views(members@), path@, ctx@, min as nat),
{
    let ghost ms = member_views(members@);
    let ghost start = item_views(items@);
    let mut i: usize = 0;
    assert(ms.take(0) =~= Seq::<(Seq<char>, JsonSpec)>::empty());
    assert(item_views(items@) =~= start + other_strings(ms.take(0), path@, ctx@, min as nat));
    while i < members.len()
        invariant
            i <= members@.len(),
            ms == member_views(members@),
            item_views(items@) == start + other_strings(ms.take(i as int), path@, ctx@, min as nat),
        decreases members@.len() - i,
    {
        assert(ms.take(i + 1).drop_last() =~= ms.take(i as int));
        assert(ms[i as int] == (members@[i as int].0@, members@[i as int].1@));
        match as_str(&members[i].1) {
            Some(t) => {
                if str_byte_len(t) >= min {
                    let k = to_chars(members[i].0.as_str());
                    let tv = to_chars(t);
                    let p = dotted_exec(path, k.as_slice());
                    let d = new_item(tv.as_slice(), p.as_slice(), k.as_slice(), ctx, "conversation.other", members[i].1.clone());
                    push_item(items, d);
                }
            },
            None => {},
        }
        assert(item_views(items@) =~= start + other_strings(ms.take(i + 1), path@, ctx@, min as nat));
        i += 1;
    }
    assert(ms.take(members@.len() as int) =~= ms);
}

/// Extract a single message item; see `message_items`.
pub fn extract_message_item(item_value: &JsonValue, path: &str, config: &JsonImportConfig, items: &mut Vec<ExtractedJsonData>)
    ensures
        item_views(final(items)@) == item_views(old(items)@) + message_items(item_value@, path@, *config),
{
    let p = to_chars(path);
    message_items_exec(item_value, p.as_slice(), config, items);
}

fn message_items_exec(v: &JsonValue, path: &[char], config: &JsonImportConfig, items: &mut Vec<ExtractedJsonData>)
    ensures
        item_views(final(items)@) == item_views(old(items)@) + message_items(v@, path@, *config),
{
    let ghost start = item_views(items@);
    match v {
        JsonValue::Object(members) => {
            proof { lemma_object_view(*members); }
            let ctx_keys: [&str; 9] = ["role", "speaker", "author", "timestamp", "date", "time", "sender", "id", "_id"];
            assert(str_views(ctx_keys@) =~= context_fields());
            let pairs = string_pairs_exec(v, ctx_keys.as_slice());
            let sep = to_chars(", ");
            let ctx = join_chars(&pairs, sep.as_slice());
            let fields: [&str; 6] = ["content", "text", "message", "body", "description", "value"];
            assert(str_views(fields@) =~= message_content_fields());
            match first_content_exec(v, fields.as_slice(), config.min_text_length) {
                Some(c) => {
                    let tv = to_chars(c.0);
                    let f = to_chars(fields[c.1]);
                    let p = dotted_exec(path, f.as_slice());
                    let d = new_item(tv.as_slice(), p.as_slice(), f.as_slice(), ctx.as_slice(), "conversation.message", c.2.clone());
                    push_item(items, d);
                    assert(item_views(items@) =~= start + message_items(v@, path@, *config));
                },
                None => {
                    other_strings_exec(members, path, ctx.as_slice(), config.min_text_length, items);
                },
            }
        },
        _ => {
            assert(item_views(items@) =~= start + message_items(v@, path@, *config));
        },
    }
}


// ---------------------------------------------------------------------------
// Conversations
// ---------------------------------------------------------------------------

/// The messages of an array at the top level, item `i` at path `[i]`.
pub open spec fn indexed_messages(arr: Seq<JsonSpec>, cfg: JsonImportConfig) -> Seq<ItemSpec>
    decreases arr.len(),
{
    if arr.len() == 0 {
        Seq::empty()
    } else {
        indexed_messages(arr.drop_last(), cfg) + message_items(
            arr.last(),
            index_path(Seq::empty(), (arr.len() - 1) as nat),
            cfg,
        )
    }
}

/// Members described in a conversation's metadata item.
pub open spec fn metadata_fields() -> Seq<Seq<char>> {
    seq!["id"@, "_id"@, "title"@, "name"@, "created_at"@, "updated_at"@, "conversation_id"@]
}

/// How `{}` prints an `i64`.
pub open spec fn int_text(i: i64) -> Seq<char> {
    if i < 0 {
        "-"@ + decimal((-i) as nat)
    } else {
        decimal(i as nat)
    }
}

/// A string, or a number printed as an integer when it is an `i64` and as
/// its `f64` value otherwise.
pub open spec fn scalar_text(x: JsonSpec) -> Option<Seq<char>> {
    match x {
        JsonSpec::Str(s) => Some(s),
        JsonSpec::Number(_, i, f) => match i {
            Some(n) => Some(int_text(n)),
            None => Some(f),
        },
        _ => None,
    }
}

/// `key: value` for each of `keys`, in order, whose member is a string or a number.
pub open spec fn scalar_pairs(v: JsonSpec, keys: Seq<Seq<char>>) -> Seq<Seq<char>>
    decreases keys.len(),
{
    if keys.len() == 0 {
        Seq::empty()
    } else {
        let prev = scalar_pairs(v, keys.drop_last());
        match json_get(v, keys.last()) {
            Some(x) => match scalar_text(x) {
                Some(t) => prev.push(key_value(keys.last(), t)),
                None => prev,
            },
            None => prev,
        }
    }
}

/// Members that may hold the message list.
pub open spec fn message_keys() -> Seq<Seq<char>> {
    seq!["messages"@, "conversation"@, "chat"@, "entries"@, "history"@]
}

/// Path of message `i` in the list under `key`.
pub open spec fn message_path(path: Seq<char>, key: Seq<char>, i: nat) -> Seq<char> {
    if path.len() == 0 {
        index_path(key, i)
    } else {
        index_path(dotted(path, key), i)
    }
}

/// The messages of the list under `key`.
pub open spec fn keyed_messages(arr: Seq<JsonSpec>, path: Seq<char>, key: Seq<char>, cfg: JsonImportConfig) -> Seq<ItemSpec>
    decreases arr.len(),
{
    if arr.len() == 0 {
        Seq::empty()
    } else {
        keyed_messages(arr.drop_last(), path, key, cfg) + message_items(
            arr.last(),
            message_path(path, key, (arr.len() - 1) as nat),
            cfg,
        )
    }
}

/// The messages of every list among `keys`, in order.
pub open spec fn conversation_lists(v: JsonSpec, path: Seq<char>, cfg: JsonImportConfig, keys: Seq<Seq<char>>) -> Seq<ItemSpec>
    decreases keys.len(),
{
    if keys.len() == 0 {
        Seq::empty()
    } else {
        conversation_lists(v, path, cfg, keys.drop_last()) + match json_get(v, keys.last()) {
            Some(JsonSpec::Array(arr)) => keyed_messages(arr, path, keys.last(), cfg),
            _ => Seq::empty(),
        }
    }
}

/// The items of a conversation: each message of a top-level array; or, for
/// an object, a metadata item (when enabled and non-empty) followed by the
/// messages of its message lists.
pub open spec fn conversation_items(v: JsonSpec, path: Seq<char>, cfg: JsonImportConfig) -> Seq<ItemSpec> {
    match v {
        JsonSpec::Array(arr) => indexed_messages(arr, cfg),
        JsonSpec::Object(_) => {
            let pairs = scalar_pairs(v, metadata_fields());
            let meta = if pairs.len() > 0 && cfg.include_metadata {
                seq![item(join(pairs, ", "@), path, "_metadata"@, Seq::empty(), "metadata"@, JsonSpec::Null)]
            } else {
                Seq::empty()
            };
            meta + conversation_lists(v, path, cfg, message_keys())
        },
        _ => Seq::empty(),
    }
}

fn int_text_exec(i: i64) -> (r: Vec<char>)
    ensures
        r@ == int_text(i),
{
    if i < 0 {
        let a: u64 = (0i128 - i as i128) as u64;
        let mut v = to_chars("-");
        append_decimal(&mut v, a);
        v
    } else {
        let mut v: Vec<char> = Vec::new();
        append_decimal(&mut v, i as u64);
        assert(v@ =~= int_text(i));
        v
    }
}

fn scalar_pairs_exec(v: &JsonValue, keys: &[&str]) -> (r: Vec<Vec<char>>)
    ensures
        views_of(r@) == scalar_pairs(v@, str_views(keys@)),
{
    let ghost ks = str_views(keys@);
    let mut out: Vec<Vec<char>> = Vec::new();
    let mut i: usize = 0;
    assert(ks.take(0) =~= Seq::<Seq<char>>::empty());
    assert(views_of(out@) =~= Seq::<Seq<char>>::empty());
    while i < keys.len()
        invariant
            i <= keys@.len(),
            ks == str_views(keys@),
            views_of(out@) == scalar_pairs(v@, ks.take(i as int)),
        decreases keys@.len() - i,
    {
        assert(ks.take(i + 1).drop_last() =~= ks.take(i as int));
        assert(ks.take(i + 1).last() == keys@[i as int]@);
        let text: Option<Vec<char>> = match get(v, keys[i]) {
            Some(x) => match x {
                JsonValue::String(s) => Some(to_chars(s.as_str())),
                JsonValue::Number(n) => match n.as_i64 {
                    Some(k) => Some(int_text_exec(k)),
                    None => Some(to_chars(n.f64_text.as_str())),
                },
                _ => None,
            },
            None => None,
        };
        match text {
            Some(t) => {
                let k = to_chars(keys[i]);
                let ghost o0 = views_of(out@);
                let kv = key_value_exec(k.as_slice(), t.as_slice());
                let ghost kvv = kv@;
                out.push(kv);
                assert(views_of(out@) =~= o0.push(kvv));
            },
            None => {},
        }
        i += 1;
    }
    assert(ks.take(keys@.len() as int) =~= ks);
    out
}

fn keyed_messages_exec(
    arr: &Vec<JsonValue>,
    path: &[char],
    key: &[char],
    config: &JsonImportConfig,
    items: &mut Vec<ExtractedJsonData>,
)
    ensures
        item_views(final(items)@) == item_views(old(items)@) + keyed_messages(json_views(arr@), path@, key@, *config),
{
    let ghost a = json_views(arr@);
    let ghost start = item_views(items@);
    let mut i: usize = 0;
    assert(a.take(0) =~= Seq::<JsonSpec>::empty());
    assert(item_views(items@) =~= start + keyed_messages(a.take(0), path@, key@, *config));
    while i < arr.len()
        invariant
            i <= arr@.len(),
            a == json_views(arr@),
            item_views(items@) == start + keyed_messages(a.take(i as int), path@, key@, *config),
        decreases arr@.len() - i,
    {
        assert(a.take(i + 1).drop_last() =~= a.take(i as int));
        let p = if path.len() == 0 {
            index_path_exec(key, i)
        } else {
            let d = dotted_exec(path, key);
            index_path_exec(d.as_slice(), i)
        };
        message_items_exec(&arr[i], p.as_slice(), config, items);
        assert(item_views(items@) =~= start + keyed_messages(a.take(i + 1), path@, key@, *config));
        i += 1;
    }
    assert(a.take(arr@.len() as int) =~= a);
}

/// Extract a conversation; see `conversation_items`.
pub fn extract_conversation(value: &JsonValue, path: &str, config: &JsonImportConfig, items: &mut Vec<ExtractedJsonData>)
    ensures
        item_views(final(items)@) == item_views(old(items)@) + conversation_items(value@, path@, *config),
{
    let ghost start = item_views(items@);
    let p = to_chars(path);
    match value {
        JsonValue::Array(arr) => {
            proof { lemma_array_view(*arr); }
            let ghost a = json_views(arr@);
            let mut i: usize = 0;
            assert(a.take(0) =~= Seq::<JsonSpec>::empty());
            assert(item_views(items@) =~= start + indexed_messages(a.take(0), *config));
            while i < arr.len()
                invariant
                    i <= arr@.len(),
                    a == json_views(arr@),
                    item_views(items@) == start + indexed_messages(a.take(i as int), *config),
                decreases arr@.len() - i,
            {
                assert(a.take(i + 1).drop_last() =~= a.take(i as int));
                let empty: Vec<char> = Vec::new();
                let ip = index_path_exec(empty.as_slice(), i);
                message_items_exec(&arr[i], ip.as_slice(), config, items);
                assert(item_views(items@) =~= start + indexed_messages(a.take(i + 1), *config));
                i += 1;
            }
            assert(a.take(arr@.len() as int) =~= a);
        },
        JsonValue::Object(_) => {
            let keys: [&str; 7] = ["id", "_id", "title", "name", "created_at", "updated_at", "conversation_id"];
            assert(str_views(keys@) =~= metadata_fields());
            let pairs = scalar_pairs_exec(value, keys.as_slice());
            if pairs.len() > 0 && config.include_metadata {
                let sep = to_chars(", ");
                let joined = join_chars(&pairs, sep.as_slice());
                let f = to_chars("_metadata");
                let empty: Vec<char> = Vec::new();
                let d = new_item(joined.as_slice(), p.as_slice(), f.as_slice(), empty.as_slice(), "metadata", JsonValue::Null);
                push_item(items, d);
            }
            let ghost after_meta = item_views(items@);
            let lists: [&str; 5] = ["messages", "conversation", "chat", "entries", "history"];
            let ghost ks = str_views(lists@);
            assert(ks =~= message_keys());
            let mut k: usize = 0;
            assert(ks.take(0) =~= Seq::<Seq<char>>::empty());
            assert(item_views(items@) =~= after_meta + conversation_lists(value@, path@, *config, ks.take(0)));
            while k < 5
                invariant
                    k <= 5,
                    ks == str_views(lists@),
                    lists@.len() == 5,
                    p@ == path@,
                    item_views(items@) == after_meta + conversation_lists(value@, path@, *config, ks.take(k as int)),
                decreases 5 - k,
            {
                assert(ks.take(k + 1).drop_last() =~= ks.take(k as int));
                assert(ks.take(k + 1).last() == lists@[k as int]@);
                match get(value, lists[k]) {
                    Some(JsonValue::Array(arr)) => {
                        proof { lemma_array_view(*arr); }
                        let kc = to_chars(lists[k]);
                        keyed_messages_exec(arr, p.as_slice(), kc.as_slice(), config, items);
                    },
                    _ => {},
                }
                assert(item_views(items@) =~= after_meta + conversation_lists(value@, path@, *config, ks.take(k + 1)));
                k += 1;
            }
            assert(ks.take(5) =~= ks);
            assert(item_views(items@) =~= start + conversation_items(value@, path@, *config));
        },
        _ => {
            assert(item_views(items@) =~= start + conversation_items(value@, path@, *config));
        },
    }
}


// ---------------------------------------------------------------------------
// Records
// ---------------------------------------------------------------------------

/// Members that hold the main text of a record.
pub open spec fn record_fields() -> Seq<Seq<char>> {
    seq!["name"@, "title"@, "description"@, "content"@, "text"@, "summary"@, "body"@, "message"@]
}

/// Context of a record: `key: value` for every member other than the main
/// one whose value is a string, a number or a boolean.
pub open spec fn record_context(ms: Seq<(Seq<char>, JsonSpec)>, main: Seq<char>) -> Seq<Seq<char>>
    decreases ms.len(),
{
    if ms.len() == 0 {
        Seq::empty()
    } else {
        let prev = record_context(ms.drop_last(), main);
        let (k, x) = ms.last();
        if k == main {
            prev
        } else {
            match x {
                JsonSpec::Str(s) => prev.push(key_value(k, s)),
                JsonSpec::Number(t, _, _) => prev.push(key_value(k, t)),
                JsonSpec::Bool(b) => prev.push(key_value(k, if b { "true"@ } else { "false"@ })),
                _ => prev,
            }
        }
    }
}

/// Every member of a record other than the main one whose value is a
/// string, a number or a boolean gives its `key: value` line to the
/// record's context, the value written as the string itself, the number's
/// printed text, or `true` / `false`.
pub proof fn lemma_record_context_has_member(ms: Seq<(Seq<char>, JsonSpec)>, main: Seq<char>, i: int)
    requires
        0 <= i < ms.len(),
        ms[i].0 != main,
    ensures
        ms[i].1 matches JsonSpec::Str(s) ==> record_context(ms, main).contains(ms[i].0 + ": "@ + s),
        ms[i].1 matches JsonSpec::Number(t, _, _) ==> record_context(ms, main).contains(
            ms[i].0 + ": "@ + t,
        ),
        ms[i].1 matches JsonSpec::Bool(b) ==> record_context(ms, main).contains(
            ms[i].0 + ": "@ + (if b {
                "true"@
            } else {
                "false"@
            }),
        ),
    decreases ms.len(),
{
    let prev = record_context(ms.drop_last(), main);
    let all = record_context(ms, main);
    if i == ms.len() - 1 {
        match ms[i].1 {
            JsonSpec::Str(s) => assert(all[prev.len() as int] == ms[i].0 + ": "@ + s),
            JsonSpec::Number(t, _, _) => assert(all[prev.len() as int] == ms[i].0 + ": "@ + t),
            JsonSpec::Bool(b) => assert(all[prev.len() as int] == ms[i].0 + ": "@ + (if b {
                "true"@
            } else {
                "false"@
            })),
            _ => {},
        }
    } else {
        assert(ms.drop_last()[i] == ms[i]);
        lemma_record_context_has_member(ms.drop_last(), main, i);
        assert(all == prev || exists|e: Seq<char>| all == prev.push(e));
        assert forall|e: Seq<char>| prev.contains(e) implies all.contains(e) by {
            let k = choose|k: int| 0 <= k < prev.len() && prev[k] == e;
            assert(all[k] == e);
        }
    }
}

/// `key: text` for every string member of at least `min` bytes.
pub open spec fn record_strings(ms: Seq<(Seq<char>, JsonSpec)>, min: nat) -> Seq<Seq<char>>
    decreases ms.len(),
{
    if ms.len() == 0 {
        Seq::empty()
    } else {
        let prev = record_strings(ms.drop_last(), min);
        let (k, x) = ms.last();
        match json_str(x) {
            Some(t) => if byte_len(t) >= min {
                prev.push(key_value(k, t))
            } else {
                prev
            },
            None => prev,
        }
    }
}

/// The item of an object read as a record: its main text with the other
/// members as context; or, without a main text, all its long enough
/// strings one per line; nothing for other values or when there is no text.
pub open spec fn record_items(v: JsonSpec, path: Seq<char>, cfg: JsonImportConfig) -> Seq<ItemSpec> {
    match v {
        JsonSpec::Object(ms) => match first_content(v, record_fields(), cfg.min_text_length as nat) {
            Some(c) => seq![item(c.0, path, c.1, join(record_context(ms, c.1), ", "@), "data.record"@, v)],
            None => {
                let all = record_strings(ms, cfg.min_text_length as nat);
                if all.len() > 0 {
                    seq![item(join(all, "\n"@), path, "_record"@, Seq::empty(), "data.record"@, v)]
                } else {
                    Seq::empty()
                }
            },
        },
        _ => Seq::empty(),
    }
}

/// The records of array items, item `i` at `{path}[i]`.
pub open spec fn record_list(arr: Seq<JsonSpec>, path: Seq<char>, cfg: JsonImportConfig) -> Seq<ItemSpec>
    decreases arr.len(),
{
    if arr.len() == 0 {
        Seq::empty()
    } else {
        record_list(arr.drop_last(), path, cfg) + record_items(
            arr.last(),
            index_path(path, (arr.len() - 1) as nat),
            cfg,
        )
    }
}

fn record_context_exec(members: &Vec<(String, JsonValue)>, main: &[char]) -> (r: Vec<Vec<char>>)
    ensures
        views_of(r@) == record_context(member_views(members@), main@),
        forall|i: int|
            0 <= i < members@.len() && members@[i].0@ != main@ ==> ((#[trigger] member_views(
                members@,
            )[i]).1 matches JsonSpec::Str(s) ==> views_of(r@).contains(members@[i].0@ + ": "@ + s)),
{
    let ghost ms = member_views(members@);
    let mut out: Vec<Vec<char>> = Vec::new();
    let mut i: usize = 0;
    assert(ms.take(0) =~= Seq::<(Seq<char>, JsonSpec)>::empty());
    assert(views_of(out@) =~= Seq::<Seq<char>>::empty());
    while i < members.len()
        invariant
            i <= members@.len(),
            ms == member_views(members@),
            views_of(out@) == record_context(ms.take(i as int), main@),
        decreases members@.len() - i,
    {
        assert(ms.take(i + 1).drop_last() =~= ms.take(i as int));
        assert(ms[i as int] == (members@[i as int].0@, members@[i as int].1@));
        let k = to_chars(members[i].0.as_str());
        if !crate::text::chars_eq(k.as_slice(), main) {
            let text: Option<Vec<char>> = match &members[i].1 {
                JsonValue::String(s) => Some(to_chars(s.as_str())),
                JsonValue::Number(n) => Some(to_chars(n.text.as_str())),
                JsonValue::Bool(b) => Some(if *b { to_chars("true") } else { to_chars("false") }),
                _ => None,
            };
            match text {
                Some(t) => {
                    let ghost o0 = views_of(out@);
                    let kv = key_value_exec(k.as_slice(), t.as_slice());
                    let ghost kvv = kv@;
                    out.push(kv);
                    assert(views_of(out@) =~= o0.push(kvv));
                },
                None => {},
            }
        }
        i += 1;
    }
    assert(ms.take(members@.len() as int) =~= ms);
    assert forall|i: int|
        0 <= i < members@.len() && members@[i].0@ != main@ implies ((#[trigger] ms[i]).1 matches JsonSpec::Str(
            s,
        ) ==> views_of(out@).contains(members@[i].0@ + ": "@ + s)) by {
        assert(ms[i].0 == members@[i].0@);
        lemma_record_context_has_member(ms, main@, i);
    }
    out
}

fn record_strings_exec(members: &Vec<(String, JsonValue)>, min: usize) -> (r: Vec<Vec<char>>)
    ensures
        views_of(r@) == record_strings(member_views(members@), min as nat),
{
    let ghost ms = member_views(members@);
    let mut out: Vec<Vec<char>> = Vec::new();
    let mut i: usize = 0;
    assert(ms.take(0) =~= Seq::<(Seq<char>, JsonSpec)>::empty());
    assert(views_of(out@) =~= Seq::<Seq<char>>::empty());
    while i < members.len()
        invariant
            i <= members@.len(),
            ms == member_views(members@),
            views_of(out@) == record_strings(ms.take(i as int), min as nat),
        decreases members@.len() - i,
    {
        assert(ms.take(i + 1).drop_last() =~= ms.take(i as int));
        assert(ms[i as int] == (members@[i as int].0@, members@[i as int].1@));
        match as_str(&members[i].1) {
            Some(t) => {
                if str_byte_len(t) >= min {
                    let k = to_chars(members[i].0.as_str());
                    let tv = to_chars(t);
                    let ghost o0 = views_of(out@);
                    let kv = key_value_exec(k.as_slice(), tv.as_slice());
                    let ghost kvv = kv@;
                    out.push(kv);
                    assert(views_of(out@) =~= o0.push(kvv));
                }
            },
            None => {},
        }
        i += 1;
    }
    assert(ms.take(members@.len() as int) =~= ms);
    out
}

/// Extract an object as a single record; see `record_items`.
pub fn extract_object_as_record(value: &JsonValue, path: &str, config: &JsonImportConfig, items: &mut Vec<ExtractedJsonData>)
    ensures
        item_views(final(items)@) == item_views(old(items)@) + record_items(value@, path@, *config),
{
    let p = to_chars(path);
    record_items_exec(value, p.as_slice(), config, items);
}

fn record_items_exec(v: &JsonValue, path: &[char], config: &JsonImportConfig, items: &mut Vec<ExtractedJsonData>)
    ensures
        item_views(final(items)@) == item_views(old(items)@) + record_items(v@, path@, *config),
{
    let ghost start = item_views(items@);
    match v {
        JsonValue::Object(members) => {
            proof { lemma_object_view(*members); }
            let fields: [&str; 8] = ["name", "title", "description", "content", "text", "summary", "body", "message"];
            assert(str_views(fields@) =~= record_fields());
            match first_content_exec(v, fields.as_slice(), config.min_text_length) {
                Some(c) => {
                    let tv = to_chars(c.0);
                    let f = to_chars(fields[c.1]);
                    let ctx = record_context_exec(members, f.as_slice());
                    let sep = to_chars(", ");
                    let joined = join_chars(&ctx, sep.as_slice());
                    let d = new_item(tv.as_slice(), path, f.as_slice(), joined.as_slice(), "data.record", v.clone());
                    push_item(items, d);
                },
                None => {
                    let all = record_strings_exec(members, config.min_text_length);
                    if all.len() > 0 {
                        let nl = to_chars("\n");
                        let joined = join_chars(&all, nl.as_slice());
                        let f = to_chars("_record");
                        let empty: Vec<char> = Vec::new();
                        let d = new_item(joined.as_slice(), path, f.as_slice(), empty.as_slice(), "data.record", v.clone());
                        push_item(items, d);
                    }
                },
            }
            assert(item_views(items@) =~= start + record_items(v@, path@, *config));
        },
        _ => {
            assert(item_views(items@) =~= start + record_items(v@, path@, *config));
        },
    }
}

fn record_list_exec(arr: &Vec<JsonValue>, path: &[char], config: &JsonImportConfig, items: &mut Vec<ExtractedJsonData>)
    ensures
        item_views(final(items)@) == item_views(old(items)@) + record_list(json_views(arr@), path@, *config),
{
    let ghost a = json_views(arr@);
    let ghost start = item_views(items@);
    let mut i: usize = 0;
    assert(a.take(0) =~= Seq::<JsonSpec>::empty());
    assert(item_views(items@) =~= start + record_list(a.take(0), path@, *config));
    while i < arr.len()
        invariant
            i <= arr@.len(),
            a == json_views(arr@),
            item_views(items@) == start + record_list(a.take(i as int), path@, *config),
        decreases arr@.len() - i,
    {
        assert(a.take(i + 1).drop_last() =~= a.take(i as int));
        let ip = index_path_exec(path, i);
        record_items_exec(&arr[i], ip.as_slice(), config, items);
        assert(item_views(items@) =~= start + record_list(a.take(i + 1), path@, *config));
        i += 1;
    }
    assert(a.take(arr@.len() as int) =~= a);
}

// ---------------------------------------------------------------------------
// Any JSON
// ---------------------------------------------------------------------------

/// Items and warnings.
pub type Extracted = (Seq<ItemSpec>, Seq<Seq<char>>);

/// The warning for a value deeper than allowed.
pub open spec fn depth_warning(max_depth: nat, path: Seq<char>) -> Seq<char> {
    "Max depth "@ + decimal(max_depth) + " exceeded at "@ + path
}

/// The string items of an array, in order.
pub open spec fn string_items(arr: Seq<JsonSpec>) -> Seq<Seq<char>>
    decreases arr.len(),
{
    if arr.len() == 0 {
        Seq::empty()
    } else {
        let prev = string_items(arr.drop_last());
        match json_str(arr.last()) {
            Some(s) => prev.push(s),
            None => prev,
        }
    }
}

/// The generic reading of any value at `depth`: past the depth limit a
/// warning; a null (below the top), boolean, number or long enough string is
/// one item; an array (when arrays are exploded) gives one record per
/// object when all items are objects, else its strings joined; an object
/// gives the items of each member in order, one level deeper.
pub open spec fn generic_items(v: JsonSpec, path: Seq<char>, cfg: JsonImportConfig, depth: nat) -> Extracted
    decreases v,
{
    if depth > cfg.max_depth {
        (Seq::empty(), seq![depth_warning(cfg.max_depth as nat, path)])
    } else {
        match v {
            JsonSpec::Null => if depth > 0 {
                (seq![item("null"@, path, "_null"@, Seq::empty(), "null"@, JsonSpec::Null)], Seq::empty())
            } else {
                (Seq::empty(), Seq::empty())
            },
            JsonSpec::Bool(b) => (
                seq![item(if b { "true"@ } else { "false"@ }, path, "_boolean"@, Seq::empty(), "boolean"@, v)],
                Seq::empty(),
            ),
            JsonSpec::Number(t, _, _) => (
                seq![item(t, path, "_number"@, Seq::empty(), "number"@, v)],
                Seq::empty(),
            ),
            JsonSpec::Str(s) => if byte_len(s) >= cfg.min_text_length {
                (seq![item(s, path, "_value"@, Seq::empty(), "text"@, v)], Seq::empty())
            } else {
                (Seq::empty(), Seq::empty())
            },
            JsonSpec::Array(arr) => if cfg.explode_arrays && arr.len() > 0 {
                if all_objects(arr) {
                    (record_list(arr, path, cfg), Seq::empty())
                } else {
                    let joined = join(string_items(arr), ", "@);
                    if joined.len() > 0 {
                        (
                            seq![item(joined, path, "_array"@, decimal(arr.len()) + " items"@, "text"@, v)],
                            Seq::empty(),
                        )
                    } else {
                        (Seq::empty(), Seq::empty())
                    }
                }
            } else {
                (Seq::empty(), Seq::empty())
            },
            JsonSpec::Object(ms) => generic_members(ms, path, cfg, depth),
        }
    }
}

/// Path of member `key` below `path`.
pub open spec fn field_path(path: Seq<char>, key: Seq<char>) -> Seq<char> {
    if path.len() == 0 {
        key
    } else {
        dotted(path, key)
    }
}

/// The generic reading of each member, in order, one level deeper.
pub open spec fn generic_members(ms: Seq<(Seq<char>, JsonSpec)>, path: Seq<char>, cfg: JsonImportConfig, depth: nat) -> Extracted
    decreases ms,
{
    if ms.len() == 0 {
        (Seq::empty(), Seq::empty())
    } else {
        let prev = generic_members(ms.drop_last(), path, cfg, depth);
        let r = generic_items(ms.last().1, field_path(path, ms.last().0), cfg, depth + 1);
        (prev.0 + r.0, prev.1 + r.1)
    }
}

fn depth_warning_exec(max_depth: usize, path: &[char]) -> (r: String)
    ensures
        r@ == depth_warning(max_depth as nat, path@),
{
    let mut v = to_chars("Max depth ");
    append_decimal(&mut v, max_depth as u64);
    let mid = to_chars(" exceeded at ");
    append_chars(&mut v, mid.as_slice());
    append_chars(&mut v, path);
    from_chars(v.as_slice())
}

fn push_warning(warnings: &mut Vec<String>, w: String)
    ensures
        string_views(final(warnings)@) == string_views(old(warnings)@).push(w@),
{
    warnings.push(w);
    assert(string_views(warnings@) =~= string_views(old(warnings)@).push(w@));
}

pub(crate) fn string_items_exec(arr: &Vec<JsonValue>) -> (r: Vec<Vec<char>>)
    ensures
        views_of(r@) == string_items(json_views(arr@)),
{
    let ghost a = json_views(arr@);
    let mut out: Vec<Vec<char>> = Vec::new();
    let mut i: usize = 0;
    assert(a.take(0) =~= Seq::<JsonSpec>::empty());
    assert(views_of(out@) =~= Seq::<Seq<char>>::empty());
    while i < arr.len()
        invariant
            i <= arr@.len(),
            a == json_views(arr@),
            views_of(out@) == string_items(a.take(i as int)),
        decreases arr@.len() - i,
    {
        assert(a.take(i + 1).drop_last() =~= a.take(i as int));
        match as_str(&arr[i]) {
            Some(t) => {
                let tv = to_chars(t);
                let ghost o0 = views_of(out@);
                let ghost tvv = tv@;
                out.push(tv);
                assert(views_of(out@) =~= o0.push(tvv));
            },
            None => {},
        }
        i += 1;
    }
    assert(a.take(arr@.len() as int) =~= a);
    out
}

/// Extract any JSON generically; see `generic_items`.
pub fn extract_generic_json(
    value: &JsonValue,
    path: &str,
    config: &JsonImportConfig,
    items: &mut Vec<ExtractedJsonData>,
    warnings: &mut Vec<String>,
    depth: usize,
)
    ensures
        item_views(final(items)@) == item_views(old(items)@) + generic_items(value@, path@, *config, depth as nat).0,
        string_views(final(warnings)@) == string_views(old(warnings)@) + generic_items(value@, path@, *config, depth as nat).1,
{
    let p = to_chars(path);
    generic_exec(value, p.as_slice(), config, items, warnings, depth);
}

fn generic_exec(
    v: &JsonValue,
    path: &[char],
    config: &JsonImportConfig,
    items: &mut Vec<ExtractedJsonData>,
    warnings: &mut Vec<String>,
    depth: usize,
)
    ensures
        item_views(final(items)@) == item_views(old(items)@) + generic_items(v@, path@, *config, depth as nat).0,
        string_views(final(warnings)@) == string_views(old(warnings)@) + generic_items(v@, path@, *config, depth as nat).1,
    decreases v,
{
    let ghost i0 = item_views(items@);
    let ghost w0 = string_views(warnings@);
    let ghost res = generic_items(v@, path@, *config, depth as nat);
    if depth > config.max_depth {
        let w = depth_warning_exec(config.max_depth, path);
        push_warning(warnings, w);
        assert(item_views(items@) =~= i0 + res.0);
        assert(string_views(warnings@) =~= w0 + res.1);
        return;
    }
    let empty: Vec<char> = Vec::new();
    match v {
        JsonValue::Null => {
            if depth > 0 {
                let c = to_chars("null");
                let f = to_chars("_null");
                push_item(items, new_item(c.as_slice(), path, f.as_slice(), empty.as_slice(), "null", JsonValue::Null));
            }
        },
        JsonValue::Bool(b) => {
            let c = if *b { to_chars("true") } else { to_chars("false") };
            let f = to_chars("_boolean");
            push_item(items, new_item(c.as_slice(), path, f.as_slice(), empty.as_slice(), "boolean", JsonValue::Bool(*b)));
        },
        JsonValue::Number(n) => {
            let c = to_chars(n.text.as_str());
            let f = to_chars("_number");
            push_item(items, new_item(c.as_slice(), path, f.as_slice(), empty.as_slice(), "number", v.clone()));
        },
        JsonValue::String(s) => {
            if str_byte_len(s.as_str()) >= config.min_text_length {
                let c = to_chars(s.as_str());
                let f = to_chars("_value");
                push_item(items, new_item(c.as_slice(), path, f.as_slice(), empty.as_slice(), "text", v.clone()));
            }
        },
        JsonValue::Array(arr) => {
            proof { lemma_array_view(*arr); }
            if config.explode_arrays && arr.len() > 0 {
                if all_objects_exec(arr) {
                    record_list_exec(arr, path, config, items);
                } else {
                    let strs = string_items_exec(arr);
                    let sep = to_chars(", ");
                    let joined = join_chars(&strs, sep.as_slice());
                    if joined.len() > 0 {
                        let f = to_chars("_array");
                        let mut ctx: Vec<char> = Vec::new();
                        append_decimal(&mut ctx, arr.len() as u64);
                        let suffix = to_chars(" items");
                        append_chars(&mut ctx, suffix.as_slice());
                        push_item(items, new_item(joined.as_slice(), path, f.as_slice(), ctx.as_slice(), "text", v.clone()));
                    }
                }
            }
        },
        JsonValue::Object(members) => {
            proof { lemma_object_view(*members); }
            let ghost ms = member_views(members@);
            let mut i: usize = 0;
            assert(ms.take(0) =~= Seq::<(Seq<char>, JsonSpec)>::empty());
            assert(item_views(items@) =~= i0 + generic_members(ms.take(0), path@, *config, depth as nat).0);
            assert(string_views(warnings@) =~= w0 + generic_members(ms.take(0), path@, *config, depth as nat).1);
            while i < members.len()
                invariant
                    *v == JsonValue::Object(*members),
                    i <= members@.len(),
                    ms == member_views(members@),
                    depth <= config.max_depth,
                    item_views(items@) == i0 + generic_members(ms.take(i as int), path@, *config, depth as nat).0,
                    string_views(warnings@) == w0 + generic_members(ms.take(i as int), path@, *config, depth as nat).1,
                decreases members@.len() - i,
            {
                assert(ms.take(i + 1).drop_last() =~= ms.take(i as int));
                assert(ms[i as int] == (members@[i as int].0@, members@[i as int].1@));
                let k = to_chars(members[i].0.as_str());
                let fp = if path.len() == 0 {
                    k
                } else {
                    dotted_exec(path, k.as_slice())
                };
                let ghost ib = item_views(items@);
                assert(decreases_to!(*members => members[i as int]));
                assert(decreases_to!(members[i as int] => members[i as int].1));
                assert(decreases_to!(*v => v->Object_0));
                if depth < usize::MAX {
                    generic_exec(&members[i].1, fp.as_slice(), config, items, warnings, depth + 1);
                } else {
                    // One level below the largest depth is past any limit.
                    let w = depth_warning_exec(config.max_depth, fp.as_slice());
                    push_warning(warnings, w);
                    assert(item_views(items@) =~= ib + Seq::<ItemSpec>::empty());
                }
                // The child's items, named so that the members' definition unfolds here.
                let ghost child = generic_items(members@[i as int].1@, fp@, *config, (depth + 1) as nat);
                assert(item_views(items@) =~= i0 + generic_members(ms.take(i + 1), path@, *config, depth as nat).0);
                assert(string_views(warnings@) =~= w0 + generic_members(ms.take(i + 1), path@, *config, depth as nat).1);
                i += 1;
            }
            assert(ms.take(members@.len() as int) =~= ms);
        },
    }
    assert(item_views(items@) =~= i0 + res.0);
    assert(string_views(warnings@) =~= w0 + res.1);
}


// ---------------------------------------------------------------------------
// Data arrays
// ---------------------------------------------------------------------------

/// An object with exactly the members `key` and `value`.
pub open spec fn is_key_value_item(x: JsonSpec) -> bool {
    &&& x is Object
    &&& x->Object_0.len() == 2
    &&& has_key(x->Object_0, "key"@)
    &&& has_key(x->Object_0, "value"@)
}

/// Every item is a key/value object.
pub open spec fn all_key_value(arr: Seq<JsonSpec>) -> bool {
    forall|i: int| 0 <= i < arr.len() ==> is_key_value_item(arr[i])
}

/// The key of a key/value object, `unknown` when it is not a string.
pub open spec fn kv_key(x: JsonSpec) -> Seq<char> {
    match get_str(x, "key"@) {
        Some(k) => k,
        None => "unknown"@,
    }
}

/// The value of a key/value object as text: a string as is, anything else
/// as compact JSON; empty without a value.
pub open spec fn kv_value(x: JsonSpec) -> Seq<char> {
    match json_get(x, "value"@) {
        Some(y) => match json_str(y) {
            Some(s) => s,
            None => json_text(y),
        },
        None => Seq::empty(),
    }
}

/// One `config` item per key/value object, item `i` at `{path}[i]`.
pub open spec fn kv_items(arr: Seq<JsonSpec>, path: Seq<char>) -> Seq<ItemSpec>
    decreases arr.len(),
{
    if arr.len() == 0 {
        Seq::empty()
    } else {
        let x = arr.last();
        kv_items(arr.drop_last(), path) + if x is Object {
            seq![item(key_value(kv_key(x), kv_value(x)), index_path(path, (arr.len() - 1) as nat), kv_key(x), Seq::empty(), "config"@, x)]
        } else {
            Seq::empty()
        }
    }
}

/// The items of a data array: key/value pairs when every item is one,
/// records otherwise.
pub open spec fn array_part(arr: Seq<JsonSpec>, path: Seq<char>, cfg: JsonImportConfig) -> Seq<ItemSpec> {
    if arr.len() == 0 {
        Seq::empty()
    } else if all_key_value(arr) {
        kv_items(arr, path)
    } else {
        record_list(arr, path, cfg)
    }
}

/// The items of a data array document: the array itself, or the first
/// array member of an object; an object without one is read generically.
pub open spec fn data_array_items(v: JsonSpec, path: Seq<char>, cfg: JsonImportConfig) -> Extracted {
    match v {
        JsonSpec::Array(arr) => (array_part(arr, path, cfg), Seq::empty()),
        JsonSpec::Object(ms) => match first_array(ms) {
            Some(arr) => (array_part(arr, path, cfg), Seq::empty()),
            None => generic_items(v, path, cfg, 0),
        },
        _ => (Seq::empty(), Seq::empty()),
    }
}

fn is_key_value_exec(x: &JsonValue) -> (r: bool)
    ensures
        r == is_key_value_item(x@),
{
    match x {
        JsonValue::Object(members) => {
            proof { lemma_object_view(*members); }
            members.len() == 2 && has_key_exec(members, "key") && has_key_exec(members, "value")
        },
        _ => false,
    }
}

fn all_key_value_exec(arr: &Vec<JsonValue>) -> (r: bool)
    ensures
        r == all_key_value(json_views(arr@)),
{
    let mut i: usize = 0;
    while i < arr.len()
        invariant
            i <= arr@.len(),
            forall|k: int| 0 <= k < i ==> is_key_value_item(json_views(arr@)[k]),
        decreases arr@.len() - i,
    {
        if !is_key_value_exec(&arr[i]) {
            assert(!is_key_value_item(json_views(arr@)[i as int]));
            return false;
        }
        i += 1;
    }
    true
}

fn kv_items_exec(arr: &Vec<JsonValue>, path: &[char], items: &mut Vec<ExtractedJsonData>)
    ensures
        item_views(final(items)@) == item_views(old(items)@) + kv_items(json_views(arr@), path@),
{
    let ghost a = json_views(arr@);
    let ghost start = item_views(items@);
    let mut i: usize = 0;
    assert(a.take(0) =~= Seq::<JsonSpec>::empty());
    assert(item_views(items@) =~= start + kv_items(a.take(0), path@));
    while i < arr.len()
        invariant
            i <= arr@.len(),
            a == json_views(arr@),
            item_views(items@) == start + kv_items(a.take(i as int), path@),
        decreases arr@.len() - i,
    {
        assert(a.take(i + 1).drop_last() =~= a.take(i as int));
        let x = &arr[i];
        match x {
            JsonValue::Object(_) => {
                let key = match get_str_exec(x, "key") {
                    Some(k) => to_chars(k),
                    None => to_chars("unknown"),
                };
                let val = match get(x, "value") {
                    Some(y) => match as_str(y) {
                        Some(s) => to_chars(s),
                        None => {
                            let t = to_json_string(y);
                            to_chars(t.as_str())
                        },
                    },
                    None => Vec::new(),
                };
                let content = key_value_exec(key.as_slice(), val.as_slice());
                let ip = index_path_exec(path, i);
                let empty: Vec<char> = Vec::new();
                push_item(items, new_item(content.as_slice(), ip.as_slice(), key.as_slice(), empty.as_slice(), "config", x.clone()));
            },
            _ => {},
        }
        assert(item_views(items@) =~= start + kv_items(a.take(i + 1), path@));
        i += 1;
    }
    assert(a.take(arr@.len() as int) =~= a);
}

fn array_part_exec(arr: &Vec<JsonValue>, path: &[char], config: &JsonImportConfig, items: &mut Vec<ExtractedJsonData>)
    ensures
        item_views(final(items)@) == item_views(old(items)@) + array_part(json_views(arr@), path@, *config),
{
    if arr.len() == 0 {
        assert(item_views(items@) =~= item_views(old(items)@) + array_part(json_views(arr@), path@, *config));
        return;
    }
    if all_key_value_exec(arr) {
        kv_items_exec(arr, path, items);
    } else {
        record_list_exec(arr, path, config, items);
    }
}

/// Extract a data array; see `data_array_items`.
pub fn extract_data_array(
    value: &JsonValue,
    path: &str,
    config: &JsonImportConfig,
    items: &mut Vec<ExtractedJsonData>,
    warnings: &mut Vec<String>,
)
    ensures
        item_views(final(items)@) == item_views(old(items)@) + data_array_items(value@, path@, *config).0,
        string_views(final(warnings)@) == string_views(old(warnings)@) + data_array_items(value@, path@, *config).1,
{
    let p = to_chars(path);
    match value {
        JsonValue::Array(arr) => {
            proof { lemma_array_view(*arr); }
            array_part_exec(arr, p.as_slice(), config, items);
            assert(string_views(warnings@) =~= string_views(old(warnings)@) + data_array_items(value@, path@, *config).1);
        },
        JsonValue::Object(members) => {
            proof { lemma_object_view(*members); }
            match first_array_exec(members) {
                Some(i) => match &members[i].1 {
                    JsonValue::Array(arr) => {
                        proof { lemma_array_view(*arr); }
                        array_part_exec(arr, p.as_slice(), config, items);
                        assert(string_views(warnings@) =~= string_views(old(warnings)@) + data_array_items(value@, path@, *config).1);
                    },
                    _ => {},
                },
                None => {
                    generic_exec(value, p.as_slice(), config, items, warnings, 0);
                },
            }
        },
        _ => {
            assert(item_views(items@) =~= item_views(old(items)@) + data_array_items(value@, path@, *config).0);
            assert(string_views(warnings@) =~= string_views(old(warnings)@) + data_array_items(value@, path@, *config).1);
        },
    }
}

// ---------------------------------------------------------------------------
// Embeddings exports
// ---------------------------------------------------------------------------

/// Members that may hold the documents.
pub open spec fn doc_keys() -> Seq<Seq<char>> {
    seq!["documents"@, "texts"@, "content"@, "chunks"@, "passages"@]
}

/// The warning given for each document list read.
pub open spec fn embeddings_warning() -> Seq<char> {
    "Extracting documents from embeddings export. Embeddings themselves are not stored."@
}

/// The items of an array value.
pub open spec fn array_of(x: Option<JsonSpec>) -> Option<Seq<JsonSpec>> {
    match x {
        Some(JsonSpec::Array(a)) => Some(a),
        _ => None,
    }
}

/// `id: {id}` for document `i` when its id is a string.
pub open spec fn doc_id_text(ids: Option<Seq<JsonSpec>>, i: int) -> Seq<char> {
    match ids {
        Some(a) => if 0 <= i < a.len() {
            match json_str(a[i]) {
                Some(s) => "id: "@ + s,
                None => Seq::empty(),
            }
        } else {
            Seq::empty()
        },
        None => Seq::empty(),
    }
}

/// A value as text: a string as is, anything else as compact JSON.
pub open spec fn value_text(x: JsonSpec) -> Seq<char> {
    match json_str(x) {
        Some(s) => s,
        None => json_text(x),
    }
}

/// `key: value` for every member.
pub open spec fn meta_pairs(ms: Seq<(Seq<char>, JsonSpec)>) -> Seq<Seq<char>>
    decreases ms.len(),
{
    if ms.len() == 0 {
        Seq::empty()
    } else {
        meta_pairs(ms.drop_last()).push(key_value(ms.last().0, value_text(ms.last().1)))
    }
}

/// The metadata of document `i` when it is an object.
pub open spec fn doc_meta_text(metas: Option<Seq<JsonSpec>>, i: int) -> Seq<char> {
    match metas {
        Some(a) => if 0 <= i < a.len() {
            match a[i] {
                JsonSpec::Object(o) => join(meta_pairs(o), ", "@),
                _ => Seq::empty(),
            }
        } else {
            Seq::empty()
        },
        None => Seq::empty(),
    }
}

/// The non-empty of two texts joined by `, `.
pub open spec fn join_nonempty(a: Seq<char>, b: Seq<char>) -> Seq<char> {
    if a.len() > 0 && b.len() > 0 {
        a + ", "@ + b
    } else if a.len() > 0 {
        a
    } else {
        b
    }
}

/// One item per document whose text is long enough, with its id and
/// metadata as context.
pub open spec fn doc_items(
    docs: Seq<JsonSpec>,
    ids: Option<Seq<JsonSpec>>,
    metas: Option<Seq<JsonSpec>>,
    path: Seq<char>,
    key: Seq<char>,
    cfg: JsonImportConfig,
) -> Seq<ItemSpec>
    decreases docs.len(),
{
    if docs.len() == 0 {
        Seq::empty()
    } else {
        let i = docs.len() - 1;
        let d = docs.last();
        let content = match json_str(d) {
            Some(s) => s,
            None => Seq::empty(),
        };
        doc_items(docs.drop_last(), ids, metas, path, key, cfg) + if byte_len(content) < cfg.min_text_length {
            Seq::empty()
        } else {
            seq![item(content, index_path(dotted(path, key), i as nat), "document"@, join_nonempty(doc_id_text(ids, i), doc_meta_text(metas, i)), "embeddings.document"@, d)]
        }
    }
}

/// The documents of a list: the first item when it is itself an array
/// (the nested layout), the list otherwise.
pub open spec fn documents_of(arr: Seq<JsonSpec>) -> Seq<JsonSpec> {
    if arr.len() > 0 && arr[0] is Array {
        arr[0]->Array_0
    } else {
        arr
    }
}

/// The documents of every list among `keys`, each list with a warning.
pub open spec fn embeddings_lists(v: JsonSpec, path: Seq<char>, cfg: JsonImportConfig, keys: Seq<Seq<char>>) -> Extracted
    decreases keys.len(),
{
    if keys.len() == 0 {
        (Seq::empty(), Seq::empty())
    } else {
        let prev = embeddings_lists(v, path, cfg, keys.drop_last());
        match json_get(v, keys.last()) {
            Some(JsonSpec::Array(arr)) => (
                prev.0 + doc_items(
                    documents_of(arr),
                    array_of(json_get(v, "ids"@)),
                    array_of(json_get(v, "metadatas"@)),
                    path,
                    keys.last(),
                    cfg,
                ),
                prev.1.push(embeddings_warning()),
            ),
            _ => prev,
        }
    }
}

/// The items of an embeddings export object.
pub open spec fn embeddings_items(v: JsonSpec, path: Seq<char>, cfg: JsonImportConfig) -> Extracted {
    match v {
        JsonSpec::Object(_) => embeddings_lists(v, path, cfg, doc_keys()),
        _ => (Seq::empty(), Seq::empty()),
    }
}

fn value_text_exec(x: &JsonValue) -> (r: Vec<char>)
    ensures
        r@ == value_text(x@),
{
    match as_str(x) {
        Some(s) => to_chars(s),
        None => {
            let t = to_json_string(x);
            to_chars(t.as_str())
        },
    }
}

fn meta_pairs_exec(members: &Vec<(String, JsonValue)>) -> (r: Vec<Vec<char>>)
    ensures
        views_of(r@) == meta_pairs(member_views(members@)),
{
    let ghost ms = member_views(members@);
    let mut out: Vec<Vec<char>> = Vec::new();
    let mut i: usize = 0;
    assert(ms.take(0) =~= Seq::<(Seq<char>, JsonSpec)>::empty());
    assert(views_of(out@) =~= Seq::<Seq<char>>::empty());
    while i < members.len()
        invariant
            i <= members@.len(),
            ms == member_views(members@),
            views_of(out@) == meta_pairs(ms.take(i as int)),
        decreases members@.len() - i,
    {
        assert(ms.take(i + 1).drop_last() =~= ms.take(i as int));
        assert(ms[i as int] == (members@[i as int].0@, members@[i as int].1@));
        let k = to_chars(members[i].0.as_str());
        let t = value_text_exec(&members[i].1);
        let ghost o0 = views_of(out@);
        let kv = key_value_exec(k.as_slice(), t.as_slice());
        let ghost kvv = kv@;
        out.push(kv);
        assert(views_of(out@) =~= o0.push(kvv));
        i += 1;
    }
    assert(ms.take(members@.len() as int) =~= ms);
    out
}

fn doc_items_exec(
    docs: &Vec<JsonValue>,
    ids: Option<&Vec<JsonValue>>,
    metas: Option<&Vec<JsonValue>>,
    path: &[char],
    key: &[char],
    config: &JsonImportConfig,
    items: &mut Vec<ExtractedJsonData>,
)
    ensures
        item_views(final(items)@) == item_views(old(items)@) + doc_items(
            json_views(docs@),
            match ids {
                Some(a) => Some(json_views(a@)),
                None => None,
            },
            match metas {
                Some(a) => Some(json_views(a@)),
                None => None,
            },
            path@,
            key@,
            *config,
        ),
{
    let ghost d = json_views(docs@);
    let ghost idv = match ids {
        Some(a) => Some(json_views(a@)),
        None => None,
    };
    let ghost mv = match metas {
        Some(a) => Some(json_views(a@)),
        None => None,
    };
    let ghost start = item_views(items@);
    let mut i: usize = 0;
    assert(d.take(0) =~= Seq::<JsonSpec>::empty());
    assert(item_views(items@) =~= start + doc_items(d.take(0), idv, mv, path@, key@, *config));
    while i < docs.len()
        invariant
            i <= docs@.len(),
            d == json_views(docs@),
            idv == match ids {
                Some(a) => Some(json_views(a@)),
                None => None,
            },
            mv == match metas {
                Some(a) => Some(json_views(a@)),
                None => None,
            },
            item_views(items@) == start + doc_items(d.take(i as int), idv, mv, path@, key@, *config),
        decreases docs@.len() - i,
    {
        assert(d.take(i + 1).drop_last() =~= d.take(i as int));
        let doc = &docs[i];
        let content = match as_str(doc) {
            Some(s) => to_chars(s),
            None => Vec::new(),
        };
        if byte_len_exec(content.as_slice()) >= config.min_text_length {
            let id_text: Vec<char> = match ids {
                Some(a) => if i < a.len() {
                    match as_str(&a[i]) {
                        Some(s) => {
                            let mut t = to_chars("id: ");
                            let sv = to_chars(s);
                            append_chars(&mut t, sv.as_slice());
                            t
                        },
                        None => Vec::new(),
                    }
                } else {
                    Vec::new()
                },
                None => Vec::new(),
            };
            let meta_text: Vec<char> = match metas {
                Some(a) => if i < a.len() {
                    match &a[i] {
                        JsonValue::Object(o) => {
                            proof { lemma_object_view(*o); }
                            let pairs = meta_pairs_exec(o);
                            let sep = to_chars(", ");
                            join_chars(&pairs, sep.as_slice())
                        },
                        _ => Vec::new(),
                    }
                } else {
                    Vec::new()
                },
                None => Vec::new(),
            };
            let ctx: Vec<char> = if id_text.len() > 0 && meta_text.len() > 0 {
                let mut t = id_text;
                let sep = to_chars(", ");
                append_chars(&mut t, sep.as_slice());
                append_chars(&mut t, meta_text.as_slice());
                t
            } else if id_text.len() > 0 {
                id_text
            } else {
                meta_text
            };
            let dk = dotted_exec(path, key);
            let ip = index_path_exec(dk.as_slice(), i);
            let f = to_chars("document");
            push_item(items, new_item(content.as_slice(), ip.as_slice(), f.as_slice(), ctx.as_slice(), "embeddings.document", doc.clone()));
        }
        assert(item_views(items@) =~= start + doc_items(d.take(i + 1), idv, mv, path@, key@, *config));
        i += 1;
    }
    assert(d.take(docs@.len() as int) =~= d);
}

fn array_member<'a>(v: &'a JsonValue, key: &str) -> (r: Option<&'a Vec<JsonValue>>)
    ensures
        match r {
            Some(a) => array_of(json_get(v@, key@)) == Some(json_views(a@)),
            None => array_of(json_get(v@, key@)) is None,
        },
{
    match get(v, key) {
        Some(JsonValue::Array(a)) => {
            proof { lemma_array_view(*a); }
            Some(a)
        },
        _ => None,
    }
}

/// Extract an embeddings export; see `embeddings_items`.
pub fn extract_embeddings_export(
    value: &JsonValue,
    path: &str,
    config: &JsonImportConfig,
    items: &mut Vec<ExtractedJsonData>,
    warnings: &mut Vec<String>,
)
    ensures
        item_views(final(items)@) == item_views(old(items)@) + embeddings_items(value@, path@, *config).0,
        string_views(final(warnings)@) == string_views(old(warnings)@) + embeddings_items(value@, path@, *config).1,
{
    let ghost i0 = item_views(items@);
    let ghost w0 = string_views(warnings@);
    match value {
        JsonValue::Object(_) => {},
        _ => {
            assert(item_views(items@) =~= i0 + embeddings_items(value@, path@, *config).0);
            assert(string_views(warnings@) =~= w0 + embeddings_items(value@, path@, *config).1);
            return;
        },
    }
    let p = to_chars(path);
    let keys: [&str; 5] = ["documents", "texts", "content", "chunks", "passages"];
    let ghost ks = str_views(keys@);
    assert(ks =~= doc_keys());
    let ids = array_member(value, "ids");
    let metas = array_member(value, "metadatas");
    let mut k: usize = 0;
    assert(ks.take(0) =~= Seq::<Seq<char>>::empty());
    assert(item_views(items@) =~= i0 + embeddings_lists(value@, path@, *config, ks.take(0)).0);
    assert(string_views(warnings@) =~= w0 + embeddings_lists(value@, path@, *config, ks.take(0)).1);
    while k < 5
        invariant
            k <= 5,
            keys@.len() == 5,
            ks == str_views(keys@),
            p@ == path@,
            value@ is Object,
            match ids {
                Some(a) => array_of(json_get(value@, "ids"@)) == Some(json_views(a@)),
                None => array_of(json_get(value@, "ids"@)) is None,
            },
            match metas {
                Some(a) => array_of(json_get(value@, "metadatas"@)) == Some(json_views(a@)),
                None => array_of(json_get(value@, "metadatas"@)) is None,
            },
            item_views(items@) == i0 + embeddings_lists(value@, path@, *config, ks.take(k as int)).0,
            string_views(warnings@) == w0 + embeddings_lists(value@, path@, *config, ks.take(k as int)).1,
        decreases 5 - k,
    {
        assert(ks.take(k + 1).drop_last() =~= ks.take(k as int));
        assert(ks.take(k + 1).last() == keys@[k as int]@);
        match get(value, keys[k]) {
            Some(JsonValue::Array(arr)) => {
                proof { lemma_array_view(*arr); }
                let w = to_chars("Extracting documents from embeddings export. Embeddings themselves are not stored.");
                push_warning(warnings, from_chars(w.as_slice()));
                let kc = to_chars(keys[k]);
                let nested = arr.len() > 0 && match &arr[0] {
                    JsonValue::Array(_) => true,
                    _ => false,
                };
                if nested {
                    match &arr[0] {
                        JsonValue::Array(inner) => {
                            proof { lemma_array_view(*inner); }
                            doc_items_exec(inner, ids, metas, p.as_slice(), kc.as_slice(), config, items);
                        },
                        _ => {},
                    }
                } else {
                    doc_items_exec(arr, ids, metas, p.as_slice(), kc.as_slice(), config, items);
                }
            },
            _ => {},
        }
        assert(item_views(items@) =~= i0 + embeddings_lists(value@, path@, *config, ks.take(k + 1)).0);
        assert(string_views(warnings@) =~= w0 + embeddings_lists(value@, path@, *config, ks.take(k + 1)).1);
        k += 1;
    }
    assert(ks.take(5) =~= ks);
}


// ---------------------------------------------------------------------------
// Whole documents
// ---------------------------------------------------------------------------

/// The configuration used when none is given.
pub open spec fn default_config() -> JsonImportConfig {
    JsonImportConfig { include_metadata: true, max_depth: 10, min_text_length: 1, explode_arrays: true }
}

/// The items and warnings of a document, read according to its layout.
pub open spec fn extraction(v: JsonSpec, cfg: JsonImportConfig) -> Extracted {
    match json_type_of(v) {
        JsonFileType::Conversation => (conversation_items(v, Seq::empty(), cfg), Seq::empty()),
        JsonFileType::DataArray => data_array_items(v, Seq::empty(), cfg),
        JsonFileType::EmbeddingsExport => embeddings_items(v, Seq::empty(), cfg),
        _ => generic_items(v, Seq::empty(), cfg, 0),
    }
}

/// Number of items of the given kind.
pub open spec fn count_kind(items: Seq<ItemSpec>, kind: Seq<char>) -> nat {
    items.filter(|d: ItemSpec| d.data_type == kind).len()
}

fn count_kind_exec(items: &Vec<ExtractedJsonData>, kind: &str) -> (r: usize)
    ensures
        r == count_kind(item_views(items@), kind@),
{
    let ghost all = item_views(items@);
    let ghost pred = |d: ItemSpec| d.data_type == kind@;
    let mut n: usize = 0;
    let mut i: usize = 0;
    assert(all.take(0).filter(pred) =~= Seq::<ItemSpec>::empty());
    while i < items.len()
        invariant
            i <= items@.len(),
            all == item_views(items@),
            pred == (|d: ItemSpec| d.data_type == kind@),
            n == all.take(i as int).filter(pred).len(),
            n <= i,
        decreases items@.len() - i,
    {
        proof {
            assert(all.take(i + 1).drop_last() =~= all.take(i as int));
            reveal_with_fuel(Seq::filter, 1);
        }
        if crate::text::str_eq(items[i].data_type.as_str(), kind) {
            n += 1;
        }
        i += 1;
    }
    assert(all.take(items@.len() as int) =~= all);
    n
}

/// Import a parsed JSON document: detect its layout, extract its items and
/// count them by kind. `config` defaults to `default_config()`.
pub fn import_json_value(value: &JsonValue, config: Option<JsonImportConfig>) -> (r: JsonImportResult)
    ensures
        ({
            let cfg = match config {
                Some(c) => c,
                None => default_config(),
            };
            &&& r.json_type == json_type_of(value@)
            &&& item_views(r.items@) == extraction(value@, cfg).0
            &&& string_views(r.warnings@) == extraction(value@, cfg).1
            &&& r.stats.total_items == r.items@.len()
            &&& r.stats.text_items == count_kind(item_views(r.items@), "text"@)
            &&& r.stats.metadata_items == count_kind(item_views(r.items@), "metadata"@)
            &&& r.stats.nested_items == count_kind(item_views(r.items@), "nested"@)
            &&& r.stats.skipped_items == 0
        }),
{
    let cfg = match config {
        Some(c) => c,
        None => JsonImportConfig::default(),
    };
    let json_type = detect_json_type(value);
    let mut items: Vec<ExtractedJsonData> = Vec::new();
    let mut warnings: Vec<String> = Vec::new();
    assert(item_views(items@) =~= Seq::<ItemSpec>::empty());
    assert(string_views(warnings@) =~= Seq::<Seq<char>>::empty());
    match json_type {
        JsonFileType::Conversation => {
            extract_conversation(value, "", &cfg, &mut items);
        },
        JsonFileType::DataArray => {
            extract_data_array(value, "", &cfg, &mut items, &mut warnings);
        },
        JsonFileType::EmbeddingsExport => {
            extract_embeddings_export(value, "", &cfg, &mut items, &mut warnings);
        },
        _ => {
            extract_generic_json(value, "", &cfg, &mut items, &mut warnings, 0);
        },
    }
    proof {
        reveal_strlit("");
        assert(""@ =~= Seq::<char>::empty());
        if config is None {
            assert(cfg == default_config());
        }
    }
    let stats = ImportStats {
        total_items: items.len(),
        text_items: count_kind_exec(&items, "text"),
        metadata_items: count_kind_exec(&items, "metadata"),
        nested_items: count_kind_exec(&items, "nested"),
        skipped_items: 0,
    };
    JsonImportResult { items, json_type, stats, warnings }
}

/// How `{:?}` prints a layout.
pub open spec fn json_type_name(t: JsonFileType) -> Seq<char> {
    match t {
        JsonFileType::Conversation => "Conversation"@,
        JsonFileType::DataArray => "DataArray"@,
        JsonFileType::MixedObject => "MixedObject"@,
        JsonFileType::Config => "Config"@,
        JsonFileType::EmbeddingsExport => "EmbeddingsExport"@,
        JsonFileType::Unknown => "Unknown"@,
    }
}

/// `  - {w}` lines for each warning.
pub open spec fn warning_lines(ws: Seq<Seq<char>>) -> Seq<char>
    decreases ws.len(),
{
    if ws.len() == 0 {
        Seq::empty()
    } else {
        warning_lines(ws.drop_last()) + "  - "@ + ws.last() + "\n"@
    }
}

/// The import summary: the layout, the item count, the non-zero counts by
/// kind, and the warnings.
pub open spec fn import_summary(t: JsonFileType, total: nat, text: nat, metadata: nat, nested: nat, ws: Seq<Seq<char>>) -> Seq<char> {
    "JSON Type: "@ + json_type_name(t) + "\n"@
        + "Total items extracted: "@ + decimal(total) + "\n"@
        + (if text > 0 { "  - Text items: "@ + decimal(text) + "\n"@ } else { Seq::empty() })
        + (if metadata > 0 { "  - Metadata items: "@ + decimal(metadata) + "\n"@ } else { Seq::empty() })
        + (if nested > 0 { "  - Nested items: "@ + decimal(nested) + "\n"@ } else { Seq::empty() })
        + (if ws.len() > 0 { "\nWarnings:\n"@ + warning_lines(ws) } else { Seq::empty() })
}

fn append_str(v: &mut Vec<char>, s: &str)
    ensures
        final(v)@ == old(v)@ + s@,
{
    let c = to_chars(s);
    append_chars(v, c.as_slice());
}

fn append_count_line(v: &mut Vec<char>, label: &str, n: usize)
    ensures
        final(v)@ == old(v)@ + if n > 0 {
            label@ + decimal(n as nat) + "\n"@
        } else {
            Seq::empty()
        },
{
    let ghost start = v@;
    if n > 0 {
        append_str(v, label);
        append_decimal(v, n as u64);
        append_str(v, "\n");
        assert(v@ =~= start + (label@ + decimal(n as nat) + "\n"@));
    } else {
        assert(v@ =~= start + Seq::<char>::empty());
    }
}

fn append_warning_lines(v: &mut Vec<char>, warnings: &Vec<String>)
    ensures
        final(v)@ == old(v)@ + warning_lines(string_views(warnings@)),
{
    let ghost f = v@;
    let ghost ws = string_views(warnings@);
    let mut i: usize = 0;
    assert(ws.take(0) =~= Seq::<Seq<char>>::empty());
    assert(v@ =~= f + warning_lines(ws.take(0)));
    while i < warnings.len()
        invariant
            i <= warnings@.len(),
            ws == string_views(warnings@),
            v@ == f + warning_lines(ws.take(i as int)),
        decreases warnings@.len() - i,
    {
        assert(ws.take(i + 1).drop_last() =~= ws.take(i as int));
        append_str(v, "  - ");
        append_str(v, warnings[i].as_str());
        append_str(v, "\n");
        assert(v@ =~= f + warning_lines(ws.take(i + 1)));
        i += 1;
    }
    assert(ws.take(warnings@.len() as int) =~= ws);
}

fn type_name_exec(t: JsonFileType) -> (r: &'static str)
    ensures
        r@ == json_type_name(t),
{
    match t {
        JsonFileType::Conversation => "Conversation",
        JsonFileType::DataArray => "DataArray",
        JsonFileType::MixedObject => "MixedObject",
        JsonFileType::Config => "Config",
        JsonFileType::EmbeddingsExport => "EmbeddingsExport",
        JsonFileType::Unknown => "Unknown",
    }
}

/// Format an import result for display; see `import_summary`.
pub fn format_import_summary(result: &JsonImportResult) -> (r: String)
    ensures
        r@ == import_summary(
            result.json_type,
            result.stats.total_items as nat,
            result.stats.text_items as nat,
            result.stats.metadata_items as nat,
            result.stats.nested_items as nat,
            string_views(result.warnings@),
        ),
{
    let mut v: Vec<char> = Vec::new();
    append_str(&mut v, "JSON Type: ");
    append_str(&mut v, type_name_exec(result.json_type));
    append_str(&mut v, "\n");
    append_str(&mut v, "Total items extracted: ");
    append_decimal(&mut v, result.stats.total_items as u64);
    append_str(&mut v, "\n");
    append_count_line(&mut v, "  - Text items: ", result.stats.text_items);
    append_count_line(&mut v, "  - Metadata items: ", result.stats.metadata_items);
    append_count_line(&mut v, "  - Nested items: ", result.stats.nested_items);
    if result.warnings.len() > 0 {
        append_str(&mut v, "\nWarnings:\n");
        append_warning_lines(&mut v, &result.warnings);
    }
    assert(v@ =~= import_summary(
        result.json_type,
        result.stats.total_items as nat,
        result.stats.text_items as nat,
        result.stats.metadata_items as nat,
        result.stats.nested_items as nat,
        string_views(result.warnings@),
    ));
    from_chars(v.as_slice())
}

} // verus!

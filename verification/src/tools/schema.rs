//! Building the JSON schemas of tool inputs: objects with typed, described
//! properties and a list of required ones.

use vstd::prelude::*;
use crate::json::{json_views, member_views, lemma_array_view, JsonNumber, JsonSpec, JsonValue};
use crate::skills::registry::texts;
use crate::tools::plugins::{json_object, json_string, member, type_is};

verus! {

/// A property of a given type, with a description.
pub open spec fn prop(t: Seq<char>, description: Seq<char>) -> JsonSpec {
    JsonSpec::Object(seq![("description"@, JsonSpec::Str(description)), ("type"@, JsonSpec::Str(t))])
}

/// A property holding a list of items of a given type, with a description.
pub open spec fn list_prop(item_type: Seq<char>, description: Seq<char>) -> JsonSpec {
    JsonSpec::Object(
        seq![
            ("description"@, JsonSpec::Str(description)),
            ("items"@, type_is(item_type)),
            ("type"@, JsonSpec::Str("array"@)),
        ],
    )
}

/// The schema of an object with the given properties and, when listed,
/// the names of those that are required.
pub open spec fn object_with(props: Seq<(Seq<char>, JsonSpec)>, required: Option<Seq<Seq<char>>>) -> JsonSpec {
    match required {
        Some(names) => JsonSpec::Object(
            seq![
                ("properties"@, JsonSpec::Object(props)),
                ("required"@, JsonSpec::Array(names.map_values(|n: Seq<char>| JsonSpec::Str(n)))),
                ("type"@, JsonSpec::Str("object"@)),
            ],
        ),
        None => JsonSpec::Object(
            seq![("properties"@, JsonSpec::Object(props)), ("type"@, JsonSpec::Str("object"@))],
        ),
    }
}

/// `{"type": t}`.
pub fn type_value(t: &str) -> (r: JsonValue)
    ensures
        r@ == type_is(t@),
{
    let mut ms: Vec<(String, JsonValue)> = Vec::new();
    ms.push(member("type", json_string(t)));
    assert(member_views(ms@) =~= seq![("type"@, JsonSpec::Str(t@))]);
    json_object(ms)
}

/// A property of a given type, with a description; see `prop`.
pub fn prop_value(t: &str, description: &str) -> (r: JsonValue)
    ensures
        r@ == prop(t@, description@),
{
    let mut ms: Vec<(String, JsonValue)> = Vec::new();
    ms.push(member("description", json_string(description)));
    ms.push(member("type", json_string(t)));
    assert(member_views(ms@) =~= seq![
        ("description"@, JsonSpec::Str(description@)),
        ("type"@, JsonSpec::Str(t@)),
    ]);
    json_object(ms)
}

/// A list property; see `list_prop`.
pub fn list_prop_value(item_type: &str, description: &str) -> (r: JsonValue)
    ensures
        r@ == list_prop(item_type@, description@),
{
    let mut ms: Vec<(String, JsonValue)> = Vec::new();
    ms.push(member("description", json_string(description)));
    ms.push(member("items", type_value(item_type)));
    ms.push(member("type", json_string("array")));
    assert(member_views(ms@) =~= seq![
        ("description"@, JsonSpec::Str(description@)),
        ("items"@, type_is(item_type@)),
        ("type"@, JsonSpec::Str("array"@)),
    ]);
    json_object(ms)
}

/// An array of the given items.
pub fn json_array(items: Vec<JsonValue>) -> (r: JsonValue)
    ensures
        r@ == JsonSpec::Array(json_views(items@)),
{
    proof {
        lemma_array_view(items);
    }
    JsonValue::Array(items)
}

/// A number: as serde_json prints it, its `i64` value if it has one, and
/// how its `f64` value prints.
pub fn json_number(text: &str, as_i64: Option<i64>, f64_text: &str) -> (r: JsonValue)
    ensures
        r@ == JsonSpec::Number(text@, as_i64, f64_text@),
{
    JsonValue::Number(
        JsonNumber {
            text: crate::text::owned(text),
            as_i64,
            f64_text: crate::text::owned(f64_text),
        },
    )
}

/// An object schema; see `object_with`.
pub fn object_value(props: Vec<(String, JsonValue)>, required: Option<Vec<String>>) -> (r: JsonValue)
    ensures
        r@ == object_with(
            member_views(props@),
            match required {
                Some(v) => Some(texts(v@)),
                None => None,
            },
        ),
{
    let ghost pv = member_views(props@);
    let mut ms: Vec<(String, JsonValue)> = Vec::new();
    ms.push(member("properties", json_object(props)));
    match required {
        Some(names) => {
            let ghost nv = texts(names@);
            let mut items: Vec<JsonValue> = Vec::new();
            let mut i: usize = 0;
            while i < names.len()
                invariant
                    i <= names@.len(),
                    nv == texts(names@),
                    json_views(items@) == nv.take(i as int).map_values(|n: Seq<char>| JsonSpec::Str(n)),
                decreases names@.len() - i,
            {
                let ghost before = json_views(items@);
                items.push(json_string(names[i].as_str()));
                assert(nv[i as int] == names@[i as int]@);
                assert(json_views(items@) =~= before.push(JsonSpec::Str(nv[i as int])));
                assert(nv.take(i + 1) =~= nv.take(i as int).push(nv[i as int]));
                assert(json_views(items@) =~= nv.take(i + 1).map_values(|n: Seq<char>| JsonSpec::Str(n)));
                i += 1;
            }
            assert(nv.take(names@.len() as int) =~= nv);
            ms.push(member("required", json_array(items)));
            ms.push(member("type", json_string("object")));
            assert(member_views(ms@) =~= seq![
                ("properties"@, JsonSpec::Object(pv)),
                ("required"@, JsonSpec::Array(nv.map_values(|n: Seq<char>| JsonSpec::Str(n)))),
                ("type"@, JsonSpec::Str("object"@)),
            ]);
            json_object(ms)
        },
        None => {
            ms.push(member("type", json_string("object")));
            assert(member_views(ms@) =~= seq![
                ("properties"@, JsonSpec::Object(pv)),
                ("type"@, JsonSpec::Str("object"@)),
            ]);
            json_object(ms)
        },
    }
}

} // verus!

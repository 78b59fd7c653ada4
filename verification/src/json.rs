//! JSON values as the ingestion code reads them, and their compact text.
//!
//! Parsing is done by serde_json outside the library; a parsed value is
//! handed in as a `JsonValue`, whose object members keep the order in which
//! serde_json iterates them.

use vstd::prelude::*;
use crate::text::{to_chars, from_chars, append_chars, join, views_of, push_char};

verus! {

/// A JSON number: how serde_json prints it, its value as an `i64` when it
/// is one, and how its `f64` value prints.
#[derive(Debug)]
pub struct JsonNumber {
    pub text: String,
    pub as_i64: Option<i64>,
    pub f64_text: String,
}

/// A JSON value.
#[derive(Debug)]
pub enum JsonValue {
    Null,
    Bool(bool),
    Number(JsonNumber),
    String(String),
    Array(Vec<JsonValue>),
    Object(Vec<(String, JsonValue)>),
}

/// The mathematical form of a JSON value.
#[verifier::ext_equal]
pub enum JsonSpec {
    Null,
    Bool(bool),
    /// Printed text, `i64` value if any, printed `f64` value.
    Number(Seq<char>, Option<i64>, Seq<char>),
    Str(Seq<char>),
    Array(Seq<JsonSpec>),
    Object(Seq<(Seq<char>, JsonSpec)>),
}

/// The mathematical form of a value.
pub open spec fn json_view(v: JsonValue) -> JsonSpec
    decreases v,
{
    match v {
        JsonValue::Null => JsonSpec::Null,
        JsonValue::Bool(b) => JsonSpec::Bool(b),
        JsonValue::Number(n) => JsonSpec::Number(n.text@, n.as_i64, n.f64_text@),
        JsonValue::String(s) => JsonSpec::Str(s@),
        JsonValue::Array(items) => JsonSpec::Array(
            Seq::new(
                items@.len(),
                |i: int|
                    if 0 <= i < items@.len() {
                        json_view(items@[i])
                    } else {
                        JsonSpec::Null
                    },
            ),
        ),
        JsonValue::Object(members) => JsonSpec::Object(
            Seq::new(
                members@.len(),
                |i: int|
                    if 0 <= i < members@.len() {
                        (members@[i].0@, json_view(members@[i].1))
                    } else {
                        (Seq::empty(), JsonSpec::Null)
                    },
            ),
        ),
    }
}

impl View for JsonValue {
    type V = JsonSpec;

    open spec fn view(&self) -> JsonSpec {
        json_view(*self)
    }
}

/// The forms of a sequence of values.
pub open spec fn json_views(items: Seq<JsonValue>) -> Seq<JsonSpec> {
    Seq::new(items.len(), |i: int| json_view(items[i]))
}

/// The forms of a sequence of members.
pub open spec fn member_views(members: Seq<(String, JsonValue)>) -> Seq<(Seq<char>, JsonSpec)> {
    Seq::new(members.len(), |i: int| (members[i].0@, json_view(members[i].1)))
}

pub proof fn lemma_array_view(items: Vec<JsonValue>)
    ensures
        json_view(JsonValue::Array(items)) == JsonSpec::Array(json_views(items@)),
{
    assert(json_views(items@) =~= json_view(JsonValue::Array(items))->Array_0);
}

pub proof fn lemma_object_view(members: Vec<(String, JsonValue)>)
    ensures
        json_view(JsonValue::Object(members)) == JsonSpec::Object(member_views(members@)),
{
    assert(member_views(members@) =~= json_view(JsonValue::Object(members))->Object_0);
}

// ---------------------------------------------------------------------------
// Reading values
// ---------------------------------------------------------------------------

/// `Map::get`: the value of the first member named `key`.
pub open spec fn member_get(members: Seq<(Seq<char>, JsonSpec)>, key: Seq<char>) -> Option<JsonSpec>
    decreases members.len(),
{
    if members.len() == 0 {
        None
    } else if members[0].0 == key {
        Some(members[0].1)
    } else {
        member_get(members.drop_first(), key)
    }
}

/// `Value::get` with a key: the member of an object, `None` otherwise.
pub open spec fn json_get(v: JsonSpec, key: Seq<char>) -> Option<JsonSpec> {
    match v {
        JsonSpec::Object(ms) => member_get(ms, key),
        _ => None,
    }
}

/// `Value::as_str`.
pub open spec fn json_str(v: JsonSpec) -> Option<Seq<char>> {
    match v {
        JsonSpec::Str(s) => Some(s),
        _ => None,
    }
}

/// The string value of member `key`, if it is a string.
pub open spec fn get_str(v: JsonSpec, key: Seq<char>) -> Option<Seq<char>> {
    match json_get(v, key) {
        Some(x) => json_str(x),
        None => None,
    }
}

/// The member named `key`, by position, in an object's members.
pub fn find_member(members: &Vec<(String, JsonValue)>, key: &str) -> (r: Option<usize>)
    ensures
        match r {
            Some(i) => i < members@.len() && member_get(member_views(members@), key@) == Some(
                json_view(members@[i as int].1),
            ),
            None => member_get(member_views(members@), key@) is None,
        },
{
    let ghost all = member_views(members@);
    let mut i: usize = 0;
    assert(all.skip(0) =~= all);
    while i < members.len()
        invariant
            i <= members@.len(),
            all == member_views(members@),
            member_get(all, key@) == member_get(all.skip(i as int), key@),
        decreases members@.len() - i,
    {
        assert(all.skip(i as int).drop_first() =~= all.skip(i + 1));
        assert(all.skip(i as int)[0] == all[i as int]);
        if crate::text::str_eq(members[i].0.as_str(), key) {
            return Some(i);
        }
        i += 1;
    }
    assert(all.skip(i as int) =~= Seq::<(Seq<char>, JsonSpec)>::empty());
    None
}

/// `Value::get(key)` on any value.
pub fn get<'a>(v: &'a JsonValue, key: &str) -> (r: Option<&'a JsonValue>)
    ensures
        match r {
            Some(x) => json_get(v@, key@) == Some(x@),
            None => json_get(v@, key@) is None,
        },
{
    match v {
        JsonValue::Object(members) => {
            proof { lemma_object_view(*members); }
            match find_member(members, key) {
                Some(i) => Some(&members[i].1),
                None => None,
            }
        },
        _ => None,
    }
}

/// `Value::as_str`.
pub fn as_str(v: &JsonValue) -> (r: Option<&str>)
    ensures
        match r {
            Some(s) => json_str(v@) == Some(s@),
            None => json_str(v@) is None,
        },
{
    match v {
        JsonValue::String(s) => Some(s.as_str()),
        _ => None,
    }
}

/// The string value of member `key`, if it is a string.
pub fn get_str_exec<'a>(v: &'a JsonValue, key: &str) -> (r: Option<&'a str>)
    ensures
        match r {
            Some(s) => get_str(v@, key@) == Some(s@),
            None => get_str(v@, key@) is None,
        },
{
    match get(v, key) {
        Some(x) => as_str(x),
        None => None,
    }
}

// ---------------------------------------------------------------------------
// Compact text
// ---------------------------------------------------------------------------

/// Lowercase hexadecimal digit.
pub open spec fn hex_digit(d: nat) -> char {
    if d < 10 {
        ((d + 48) as u8) as char
    } else {
        ((d + 87) as u8) as char
    }
}

/// How serde_json writes one character inside a string: quote, backslash
/// and control characters are escaped, everything else is kept.
pub open spec fn escape_char(c: char) -> Seq<char> {
    let u = c as u32;
    if c == '"' {
        seq!['\\', '"']
    } else if c == '\\' {
        seq!['\\', '\\']
    } else if u == 8 {
        seq!['\\', 'b']
    } else if u == 9 {
        seq!['\\', 't']
    } else if u == 10 {
        seq!['\\', 'n']
    } else if u == 12 {
        seq!['\\', 'f']
    } else if u == 13 {
        seq!['\\', 'r']
    } else if u < 32 {
        seq!['\\', 'u', '0', '0', hex_digit((u / 16) as nat), hex_digit((u % 16) as nat)]
    } else {
        seq![c]
    }
}

/// The escaped characters of a string.
pub open spec fn escape(s: Seq<char>) -> Seq<char>
    decreases s.len(),
{
    if s.len() == 0 {
        Seq::empty()
    } else {
        escape(s.drop_last()) + escape_char(s.last())
    }
}

/// A string as a JSON string literal.
pub open spec fn quoted(s: Seq<char>) -> Seq<char> {
    seq!['"'] + escape(s) + seq!['"']
}

/// The texts of array items.
pub open spec fn item_texts(items: Seq<JsonSpec>) -> Seq<Seq<char>>
    decreases items,
{
    Seq::new(
        items.len(),
        |i: int|
            if 0 <= i < items.len() {
                json_text(items[i])
            } else {
                Seq::empty()
            },
    )
}

/// The texts of object members: quoted key, colon, value.
pub open spec fn member_texts(ms: Seq<(Seq<char>, JsonSpec)>) -> Seq<Seq<char>>
    decreases ms,
{
    Seq::new(
        ms.len(),
        |i: int|
            if 0 <= i < ms.len() {
                quoted(ms[i].0) + seq![':'] + json_text(ms[i].1)
            } else {
                Seq::empty()
            },
    )
}

/// The compact JSON text of a value, as `Value::to_string` writes it.
pub open spec fn json_text(v: JsonSpec) -> Seq<char>
    decreases v,
{
    match v {
        JsonSpec::Null => "null"@,
        JsonSpec::Bool(b) => if b {
            "true"@
        } else {
            "false"@
        },
        JsonSpec::Number(t, _, _) => t,
        JsonSpec::Str(s) => quoted(s),
        JsonSpec::Array(items) => seq!['['] + join(item_texts(items), ","@) + seq![']'],
        JsonSpec::Object(ms) => seq!['{'] + join(member_texts(ms), ","@) + seq!['}'],
    }
}

fn hex_exec(d: u32) -> (c: char)
    requires
        d < 16,
    ensures
        c == hex_digit(d as nat),
{
    let b: u8 = if d < 10 { (d + 48) as u8 } else { (d + 87) as u8 };
    b as char
}

/// Appends the escaped form of `s`.
fn append_escaped(out: &mut Vec<char>, s: &[char])
    ensures
        final(out)@ == old(out)@ + escape(s@),
{
    let ghost start = out@;
    let mut i: usize = 0;
    assert(escape(s@.take(0)) =~= Seq::<char>::empty());
    assert(start + escape(s@.take(0)) =~= start);
    while i < s.len()
        invariant
            i <= s.len(),
            out@ == start + escape(s@.take(i as int)),
        decreases s.len() - i,
    {
        assert(s@.take(i + 1).drop_last() =~= s@.take(i as int));
        let c = s[i];
        let u = c as u32;
        let ghost before = out@;
        if c == '"' {
            out.push('\\');
            out.push('"');
        } else if c == '\\' {
            out.push('\\');
            out.push('\\');
        } else if u == 8 {
            out.push('\\');
            out.push('b');
        } else if u == 9 {
            out.push('\\');
            out.push('t');
        } else if u == 10 {
            out.push('\\');
            out.push('n');
        } else if u == 12 {
            out.push('\\');
            out.push('f');
        } else if u == 13 {
            out.push('\\');
            out.push('r');
        } else if u < 32 {
            out.push('\\');
            out.push('u');
            out.push('0');
            out.push('0');
            out.push(hex_exec(u / 16));
            out.push(hex_exec(u % 16));
        } else {
            out.push(c);
        }
        assert(out@ =~= before + escape_char(c));
        i += 1;
    }
    assert(s@.take(s@.len() as int) =~= s@);
}

fn append_quoted(out: &mut Vec<char>, s: &[char])
    ensures
        final(out)@ == old(out)@ + quoted(s@),
{
    let ghost start = out@;
    out.push('"');
    append_escaped(out, s);
    out.push('"');
    assert(out@ =~= start + quoted(s@));
}

fn append_literal(out: &mut Vec<char>, s: &str)
    ensures
        final(out)@ == old(out)@ + s@,
{
    let c = to_chars(s);
    append_chars(out, c.as_slice());
}

/// Appends the compact text of `v`.
fn append_json(out: &mut Vec<char>, v: &JsonValue)
    ensures
        final(out)@ == old(out)@ + json_text(v@),
    decreases v,
{
    let ghost start = out@;
    match v {
        JsonValue::Null => append_literal(out, "null"),
        JsonValue::Bool(b) => if *b {
            append_literal(out, "true")
        } else {
            append_literal(out, "false")
        },
        JsonValue::Number(n) => append_literal(out, n.text.as_str()),
        JsonValue::String(s) => {
            let c = to_chars(s.as_str());
            append_quoted(out, c.as_slice());
        },
        JsonValue::Array(items) => {
            proof { lemma_array_view(*items); }
            let ghost parts = item_texts(json_views(items@));
            out.push('[');
            let mut i: usize = 0;
            while i < items.len()
                invariant
                    *v == JsonValue::Array(*items),
                    i <= items@.len(),
                    parts.len() == items@.len(),
                    forall|k: int| 0 <= k < items@.len() ==> #[trigger] parts[k] == json_text(json_view(items@[k])),
                    out@ == start + seq!['['] + join(parts.take(i as int), ","@),
                decreases items@.len() - i,
            {
                let ghost before = out@;
                if i > 0 {
                    out.push(',');
                }
                assert(decreases_to!(*items => items[i as int]));
                assert(*items == v->Array_0);
                assert(decreases_to!(*v => v->Array_0));
                assert(decreases_to!(*v => items[i as int]));
                append_json(out, &items[i]);
                proof {
                    let t = parts.take(i + 1);
                    assert(t.drop_last() =~= parts.take(i as int));
                    reveal_strlit(",");
                    if i == 0 {
                        assert(join(t, ","@) == t[0]);
                        assert(out@ =~= start + seq!['['] + join(t, ","@));
                    } else {
                        assert(out@ =~= start + seq!['['] + join(t, ","@));
                    }
                }
                i += 1;
            }
            out.push(']');
            assert(parts.take(items@.len() as int) =~= parts);
            assert(out@ =~= start + json_text(v@));
        },
        JsonValue::Object(members) => {
            proof { lemma_object_view(*members); }
            let ghost ms = member_views(members@);
            let ghost parts = member_texts(ms);
            out.push('{');
            let mut i: usize = 0;
            while i < members.len()
                invariant
                    *v == JsonValue::Object(*members),
                    i <= members@.len(),
                    ms == member_views(members@),
                    parts.len() == members@.len(),
                    forall|k: int| 0 <= k < members@.len() ==> #[trigger] parts[k] == quoted(members@[k].0@) + seq![':'] + json_text(json_view(members@[k].1)),
                    out@ == start + seq!['{'] + join(parts.take(i as int), ","@),
                decreases members@.len() - i,
            {
                if i > 0 {
                    out.push(',');
                }
                let key = to_chars(members[i].0.as_str());
                append_quoted(out, key.as_slice());
                out.push(':');
                assert(decreases_to!(*members => members[i as int]));
                assert(decreases_to!(members[i as int] => members[i as int].1));
                assert(*members == v->Object_0);
                assert(decreases_to!(*v => v->Object_0));
                assert(decreases_to!(*v => members[i as int].1));
                append_json(out, &members[i].1);
                proof {
                    let t = parts.take(i + 1);
                    assert(t.drop_last() =~= parts.take(i as int));
                    reveal_strlit(",");
                    if i == 0 {
                        assert(join(t, ","@) == t[0]);
                        assert(out@ =~= start + seq!['{'] + join(t, ","@));
                    } else {
                        assert(out@ =~= start + seq!['{'] + join(t, ","@));
                    }
                }
                i += 1;
            }
            out.push('}');
            assert(parts.take(members@.len() as int) =~= parts);
            assert(out@ =~= start + json_text(v@));
        },
    }
}

/// The compact JSON text of a value (`Value::to_string`).
pub fn to_json_string(v: &JsonValue) -> (r: String)
    ensures
        r@ == json_text(v@),
{
    let mut out: Vec<char> = Vec::new();
    append_json(&mut out, v);
    assert(out@ =~= json_text(v@));
    from_chars(out.as_slice())
}


impl Clone for JsonNumber {
    fn clone(&self) -> (r: Self)
        ensures
            r.text@ == self.text@,
            r.as_i64 == self.as_i64,
            r.f64_text@ == self.f64_text@,
    {
        JsonNumber { text: self.text.clone(), as_i64: self.as_i64, f64_text: self.f64_text.clone() }
    }
}

impl Clone for JsonValue {
    /// A deep copy with the same form.
    fn clone(&self) -> (r: Self)
        ensures
            r@ == self@,
        decreases self,
    {
        match self {
            JsonValue::Null => JsonValue::Null,
            JsonValue::Bool(b) => JsonValue::Bool(*b),
            JsonValue::Number(n) => JsonValue::Number(n.clone()),
            JsonValue::String(s) => JsonValue::String(s.clone()),
            JsonValue::Array(items) => {
                let mut out: Vec<JsonValue> = Vec::new();
                let mut i: usize = 0;
                while i < items.len()
                    invariant
                        *self == JsonValue::Array(*items),
                        i <= items@.len(),
                        out@.len() == i,
                        forall|k: int| 0 <= k < i ==> #[trigger] json_view(out@[k]) == json_view(items@[k]),
                    decreases items@.len() - i,
                {
                    assert(decreases_to!(*items => items[i as int]));
                    assert(decreases_to!(*self => self->Array_0));
                    out.push(items[i].clone());
                    i += 1;
                }
                let r = JsonValue::Array(out);
                proof {
                    lemma_array_view(out);
                    lemma_array_view(*items);
                    assert(json_views(out@) =~= json_views(items@));
                }
                r
            },
            JsonValue::Object(members) => {
                let mut out: Vec<(String, JsonValue)> = Vec::new();
                let mut i: usize = 0;
                while i < members.len()
                    invariant
                        *self == JsonValue::Object(*members),
                        i <= members@.len(),
                        out@.len() == i,
                        forall|k: int| 0 <= k < i ==> #[trigger] out@[k].0@ == members@[k].0@ && json_view(out@[k].1) == json_view(members@[k].1),
                    decreases members@.len() - i,
                {
                    assert(decreases_to!(*members => members[i as int]));
                    assert(decreases_to!(members[i as int] => members[i as int].1));
                    assert(decreases_to!(*self => self->Object_0));
                    let k = members[i].0.clone();
                    let v = members[i].1.clone();
                    out.push((k, v));
                    i += 1;
                }
                let r = JsonValue::Object(out);
                proof {
                    lemma_object_view(out);
                    lemma_object_view(*members);
                    assert(member_views(out@) =~= member_views(members@));
                }
                r
            },
        }
    }
}


// ---------------------------------------------------------------------------
// Pretty text
// ---------------------------------------------------------------------------

/// Two spaces per level.
pub open spec fn indent(level: nat) -> Seq<char> {
    Seq::new(2 * level, |i: int| ' ')
}

/// Array items on their own lines, one level deeper.
pub open spec fn pretty_items(items: Seq<JsonSpec>, level: nat) -> Seq<Seq<char>>
    decreases items,
{
    Seq::new(
        items.len(),
        |i: int|
            if 0 <= i < items.len() {
                seq!['\n'] + indent(level) + pretty_text(items[i], level)
            } else {
                Seq::empty()
            },
    )
}

/// Object members on their own lines, one level deeper.
pub open spec fn pretty_members(ms: Seq<(Seq<char>, JsonSpec)>, level: nat) -> Seq<Seq<char>>
    decreases ms,
{
    Seq::new(
        ms.len(),
        |i: int|
            if 0 <= i < ms.len() {
                seq!['\n'] + indent(level) + quoted(ms[i].0) + ": "@ + pretty_text(ms[i].1, level)
            } else {
                Seq::empty()
            },
    )
}

/// The pretty JSON text of a value at nesting `level`, as
/// `serde_json::to_string_pretty` writes it: two-space indentation, one
/// item or member per line, empty arrays and objects as `[]` and `{}`.
pub open spec fn pretty_text(v: JsonSpec, level: nat) -> Seq<char>
    decreases v,
{
    match v {
        JsonSpec::Array(items) => if items.len() == 0 {
            "[]"@
        } else {
            seq!['['] + join(pretty_items(items, level + 1), ","@) + seq!['\n'] + indent(level) + seq![']']
        },
        JsonSpec::Object(ms) => if ms.len() == 0 {
            "{}"@
        } else {
            seq!['{'] + join(pretty_members(ms, level + 1), ","@) + seq!['\n'] + indent(level) + seq!['}']
        },
        _ => json_text(v),
    }
}

fn deeper(ind: &[char]) -> (r: Vec<char>)
    ensures
        r@ == ind@ + seq![' ', ' '],
{
    let mut r = crate::text::slice_to_vec(ind, 0, ind.len());
    assert(r@ =~= ind@);
    r.push(' ');
    r.push(' ');
    r
}

/// Appends the pretty text of `v` at `level`, given its indentation.
fn append_pretty(out: &mut Vec<char>, v: &JsonValue, ind: &[char], Ghost(level): Ghost<nat>)
    requires
        ind@ == indent(level),
    ensures
        final(out)@ == old(out)@ + pretty_text(v@, level),
    decreases v,
{
    let ghost start = out@;
    let child = deeper(ind);
    assert(child@ =~= indent(level + 1));
    match v {
        JsonValue::Array(items) => {
            proof { lemma_array_view(*items); }
            if items.len() == 0 {
                append_literal(out, "[]");
                return;
            }
            let ghost parts = pretty_items(json_views(items@), level + 1);
            out.push('[');
            let mut i: usize = 0;
            while i < items.len()
                invariant
                    *v == JsonValue::Array(*items),
                    i <= items@.len(),
                    child@ == indent(level + 1),
                    parts.len() == items@.len(),
                    forall|k: int| 0 <= k < items@.len() ==> #[trigger] parts[k] == seq!['\n'] + indent(level + 1) + pretty_text(json_view(items@[k]), level + 1),
                    out@ == start + seq!['['] + join(parts.take(i as int), ","@),
                decreases items@.len() - i,
            {
                let ghost before = out@;
                if i > 0 {
                    out.push(',');
                }
                out.push('\n');
                append_chars(out, child.as_slice());
                assert(decreases_to!(*items => items[i as int]));
                assert(decreases_to!(*v => v->Array_0));
                append_pretty(out, &items[i], child.as_slice(), Ghost(level + 1));
                proof {
                    let t = parts.take(i + 1);
                    assert(t.drop_last() =~= parts.take(i as int));
                    reveal_strlit(",");
                    if i == 0 {
                        assert(join(t, ","@) == t[0]);
                    }
                    assert(out@ =~= start + seq!['['] + join(t, ","@));
                }
                i += 1;
            }
            out.push('\n');
            append_chars(out, ind);
            out.push(']');
            assert(parts.take(items@.len() as int) =~= parts);
            assert(out@ =~= start + pretty_text(v@, level));
        },
        JsonValue::Object(members) => {
            proof { lemma_object_view(*members); }
            if members.len() == 0 {
                append_literal(out, "{}");
                return;
            }
            let ghost ms = member_views(members@);
            let ghost parts = pretty_members(ms, level + 1);
            out.push('{');
            let mut i: usize = 0;
            while i < members.len()
                invariant
                    *v == JsonValue::Object(*members),
                    i <= members@.len(),
                    ms == member_views(members@),
                    child@ == indent(level + 1),
                    parts.len() == members@.len(),
                    forall|k: int| 0 <= k < members@.len() ==> #[trigger] parts[k] == seq!['\n'] + indent(level + 1) + quoted(members@[k].0@) + ": "@ + pretty_text(json_view(members@[k].1), level + 1),
                    out@ == start + seq!['{'] + join(parts.take(i as int), ","@),
                decreases members@.len() - i,
            {
                if i > 0 {
                    out.push(',');
                }
                out.push('\n');
                append_chars(out, child.as_slice());
                let key = to_chars(members[i].0.as_str());
                append_quoted(out, key.as_slice());
                append_literal(out, ": ");
                assert(decreases_to!(*members => members[i as int]));
                assert(decreases_to!(members[i as int] => members[i as int].1));
                assert(decreases_to!(*v => v->Object_0));
                append_pretty(out, &members[i].1, child.as_slice(), Ghost(level + 1));
                proof {
                    let t = parts.take(i + 1);
                    assert(t.drop_last() =~= parts.take(i as int));
                    reveal_strlit(",");
                    if i == 0 {
                        assert(join(t, ","@) == t[0]);
                    }
                    assert(out@ =~= start + seq!['{'] + join(t, ","@));
                }
                i += 1;
            }
            out.push('\n');
            append_chars(out, ind);
            out.push('}');
            assert(parts.take(members@.len() as int) =~= parts);
            assert(out@ =~= start + pretty_text(v@, level));
        },
        _ => {
            append_json(out, v);
            assert(out@ =~= start + pretty_text(v@, level));
        },
    }
}

/// The pretty JSON text of a value (`serde_json::to_string_pretty`).
pub fn to_pretty_string(v: &JsonValue) -> (r: String)
    ensures
        r@ == pretty_text(v@, 0),
{
    let mut out: Vec<char> = Vec::new();
    let ind: Vec<char> = Vec::new();
    assert(ind@ =~= indent(0));
    append_pretty(&mut out, v, ind.as_slice(), Ghost(0));
    assert(out@ =~= pretty_text(v@, 0));
    from_chars(out.as_slice())
}

} // verus!

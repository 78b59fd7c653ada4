//! Inputs of the memory tools, and helpers that classify memory kinds and
//! stored content.

pub mod definitions;

use vstd::prelude::*;
use crate::models::MemoryType;
use crate::memory_types::MemoryType as LayerType;
use crate::text::{
    to_lowercase, str_eq, to_chars, from_chars, lines, lines_chars, starts_with, starts_with_chars,
    trim, trim_chars, slice_to_vec, views_of, owned,
};
use vstd::utf8::encode_utf8;
use crate::text::split_on;
use crate::tools::ingestor::text_extractor::{image_memory_text, ImageMetadata};
use vstd::string::StringSliceAdditionalSpecFns;

verus! {

/// Tool: Search memories
#[derive(Debug)]
pub struct SearchMemoryInput {
    pub query: String,
    pub limit: Option<usize>,
}

/// Tool: Get a specific memory
#[derive(Debug)]
pub struct GetMemoryInput {
    pub id: String,
}

/// Tool: List recent memories
#[derive(Debug)]
pub struct ListMemoriesInput {
    pub memory_type: Option<String>,
    pub limit: Option<usize>,
}

/// Tool: Preview memories for deletion (asks user before deleting)
#[derive(Debug)]
pub struct CleanupMemoriesInput {
    /// List of memory IDs to delete
    pub ids: Vec<String>,
    /// Confirmation from user: "yes" to proceed with deletion
    pub confirmation: String,
}

/// Tool: List all image memories and detect garbage
#[derive(Debug)]
pub struct ListImageMemoriesInput {
    /// Show memories that look like garbage image text (binary data stored as text)
    pub include_garbage: Option<bool>,
}

/// The memory kind a (lowercased) name stands for; anything else is a note.
pub open spec fn memory_type_for(s: Seq<char>) -> MemoryType {
    if s == "fact"@ {
        MemoryType::Fact
    } else if s == "task"@ {
        MemoryType::Task
    } else if s == "file"@ {
        MemoryType::File
    } else if s == "conversation"@ {
        MemoryType::Conversation
    } else if s == "code"@ {
        MemoryType::Code
    } else if s == "decision"@ {
        MemoryType::Decision
    } else if s == "event"@ {
        MemoryType::Event
    } else if s == "encounter"@ {
        MemoryType::Encounter
    } else if s == "experience"@ {
        MemoryType::Experience
    } else {
        MemoryType::Note
    }
}

/// Parse a memory kind, ignoring case; unknown names give a note.
pub fn parse_memory_type(s: &str) -> (r: MemoryType)
    ensures
        r == memory_type_for(crate::text::spec_to_lowercase(s@)),
{
    let lower = to_lowercase(s);
    let l = lower.as_str();
    if str_eq(l, "fact") {
        MemoryType::Fact
    } else if str_eq(l, "task") {
        MemoryType::Task
    } else if str_eq(l, "file") {
        MemoryType::File
    } else if str_eq(l, "conversation") {
        MemoryType::Conversation
    } else if str_eq(l, "code") {
        MemoryType::Code
    } else if str_eq(l, "decision") {
        MemoryType::Decision
    } else if str_eq(l, "event") {
        MemoryType::Event
    } else if str_eq(l, "encounter") {
        MemoryType::Encounter
    } else if str_eq(l, "experience") {
        MemoryType::Experience
    } else {
        MemoryType::Note
    }
}

/// The layered-memory kind that a stored memory kind is filed under.
pub open spec fn layer_type_of(t: MemoryType) -> LayerType {
    match t {
        MemoryType::Note => LayerType::Experience,
        MemoryType::Fact => LayerType::Knowledge,
        MemoryType::Task => LayerType::Skill,
        MemoryType::File => LayerType::Workflow,
        MemoryType::Conversation => LayerType::Context,
        MemoryType::Code => LayerType::Skill,
        MemoryType::Decision => LayerType::Experience,
        MemoryType::Event => LayerType::Observation,
        MemoryType::Encounter => LayerType::Observation,
        MemoryType::Experience => LayerType::Experience,
    }
}

/// Convert a stored memory kind to the layered-memory kind.
pub fn convert_memory_type_to_memory(dt: MemoryType) -> (r: LayerType)
    ensures
        r == layer_type_of(dt),
{
    match dt {
        MemoryType::Note => LayerType::Experience,
        MemoryType::Fact => LayerType::Knowledge,
        MemoryType::Task => LayerType::Skill,
        MemoryType::File => LayerType::Workflow,
        MemoryType::Conversation => LayerType::Context,
        MemoryType::Code => LayerType::Skill,
        MemoryType::Decision => LayerType::Experience,
        MemoryType::Event => LayerType::Observation,
        MemoryType::Encounter => LayerType::Observation,
        MemoryType::Experience => LayerType::Experience,
    }
}

/// The value of the first line that starts with `field_name`: the rest of
/// that line, trimmed; "unknown" if no line starts with it.
pub open spec fn field_value(ls: Seq<Seq<char>>, field_name: Seq<char>) -> Seq<char>
    decreases ls.len(),
{
    if ls.len() == 0 {
        "unknown"@
    } else if starts_with(ls[0], field_name) {
        trim(ls[0].skip(field_name.len() as int))
    } else {
        field_value(ls.drop_first(), field_name)
    }
}

/// Extract a field value from content: see `field_value`.
pub fn extract_field_from_content(content: &str, field_name: &str) -> (r: String)
    ensures
        r@ == field_value(lines(content@), field_name@),
{
    let c = to_chars(content);
    let f = to_chars(field_name);
    let ls = lines_chars(c.as_slice());
    let ghost all = views_of(ls@);
    assert(all.skip(0) =~= all);
    let mut i: usize = 0;
    while i < ls.len()
        invariant
            i <= ls@.len(),
            all == views_of(ls@),
            all == lines(content@),
            f@ == field_name@,
            field_value(all, f@) == field_value(all.skip(i as int), f@),
        decreases ls@.len() - i,
    {
        let line = &ls[i];
        proof {
            assert(all.skip(i as int)[0] == line@);
            assert(all.skip(i as int).drop_first() =~= all.skip(i + 1));
        }
        if starts_with_chars(line.as_slice(), f.as_slice()) {
            let rest = slice_to_vec(line.as_slice(), f.len(), line.len());
            assert(rest@ =~= line@.skip(f@.len() as int));
            let t = trim_chars(rest.as_slice());
            return from_chars(t.as_slice());
        }
        i += 1;
    }
    proof {
        assert(all.skip(i as int) =~= Seq::<Seq<char>>::empty());
    }
    owned("unknown")
}

/// A line made of a field name, a space and a value gives back the value,
/// trimmed.
proof fn lemma_field_line(p: Seq<char>, v: Seq<char>)
    requires
        p.len() > 0,
    ensures
        starts_with(crate::text::strip_cr(p.push(' ') + v), p),
        trim(crate::text::strip_cr(p.push(' ') + v).skip(p.len() as int)) == trim(v),
{
    let line = p.push(' ') + v;
    let sl = crate::text::strip_cr(line);
    if v.len() > 0 && v.last() == '\r' {
        assert(line.last() == v.last());
        assert(sl =~= p.push(' ') + v.drop_last());
        assert(sl.take(p.len() as int) =~= p);
        assert(sl.skip(p.len() as int) =~= seq![' '] + v.drop_last());
        crate::text::lemma_trim_after_white(' ', v.drop_last());
        crate::text::lemma_trim_drop_white(v);
    } else {
        if v.len() == 0 {
            assert(line.last() == ' ');
        } else {
            assert(line.last() == v.last());
        }
        assert(sl == line);
        assert(sl.take(p.len() as int) =~= p);
        assert(sl.skip(p.len() as int) =~= seq![' '] + v);
        crate::text::lemma_trim_after_white(' ', v);
    }
}

/// Reading a field back from the memory text of an image gives the field's
/// value, trimmed: its file name, format and size (none of which holds a
/// line break).
pub proof fn lemma_image_fields_read_back(
    filename: Seq<char>,
    format: Seq<char>,
    size: Seq<char>,
    svg: Option<Seq<char>>,
    note: Seq<char>,
)
    requires
        !filename.contains('\n'),
        !format.contains('\n'),
        !size.contains('\n'),
    ensures
        field_value(lines(image_memory_text(filename, format, size, svg, note)), "Filename:"@)
            == trim(filename),
        field_value(lines(image_memory_text(filename, format, size, svg, note)), "Format:"@)
            == trim(format),
        field_value(lines(image_memory_text(filename, format, size, svg, note)), "Size:"@)
            == trim(size),
{
    reveal_strlit("IMAGE FILE\nFilename: ");
    reveal_strlit("\nFormat: ");
    reveal_strlit("\nSize: ");
    reveal_strlit("\n");
    reveal_strlit("Filename:");
    reveal_strlit("Format:");
    reveal_strlit("Size:");
    let l0 = seq!['I', 'M', 'A', 'G', 'E', ' ', 'F', 'I', 'L', 'E'];
    let pf = "Filename:"@;
    let pm = "Format:"@;
    let ps = "Size:"@;
    let l1 = pf.push(' ') + filename;
    let l2 = pm.push(' ') + format;
    let l3 = ps.push(' ') + size;
    let text = image_memory_text(filename, format, size, svg, note);
    let rest = match svg {
        Some(info) => "\nSVG Details:\n"@ + info,
        None => Seq::empty(),
    } + "\nNote: "@ + note + "\n"@;
    let t3 = l3.push('\n') + rest;
    let t2 = l2.push('\n') + t3;
    let t1 = l1.push('\n') + t2;
    assert(text =~= l0.push('\n') + t1);
    assert(!l0.contains('\n')) by {
        assert forall|k: int| 0 <= k < l0.len() implies l0[k] != '\n' by {}
    }
    assert(!l1.contains('\n')) by {
        assert forall|k: int| 0 <= k < l1.len() implies l1[k] != '\n' by {
            if k >= pf.len() + 1 {
                assert(l1[k] == filename[k - pf.len() - 1]);
            }
        }
    }
    assert(!l2.contains('\n')) by {
        assert forall|k: int| 0 <= k < l2.len() implies l2[k] != '\n' by {
            if k >= pm.len() + 1 {
                assert(l2[k] == format[k - pm.len() - 1]);
            }
        }
    }
    assert(!l3.contains('\n')) by {
        assert forall|k: int| 0 <= k < l3.len() implies l3[k] != '\n' by {
            if k >= ps.len() + 1 {
                assert(l3[k] == size[k - ps.len() - 1]);
            }
        }
    }
    crate::text::lemma_split_on_first(l3, '\n', rest);
    crate::text::lemma_split_on_first(l2, '\n', t3);
    crate::text::lemma_split_on_first(l1, '\n', t2);
    crate::text::lemma_split_on_first(l0, '\n', t1);
    crate::text::lemma_split_on_nonempty(rest, '\n');
    let parts = split_on(text, '\n');
    assert(parts =~= seq![l0, l1, l2, l3] + split_on(rest, '\n'));
    let ls = lines(text);
    assert(ls.len() >= 4);
    assert(ls[0] == crate::text::strip_cr(l0));
    assert(ls[1] == crate::text::strip_cr(l1));
    assert(ls[2] == crate::text::strip_cr(l2));
    assert(ls[3] == crate::text::strip_cr(l3));
    assert(crate::text::strip_cr(l0) == l0);
    lemma_field_line(pf, filename);
    lemma_field_line(pm, format);
    lemma_field_line(ps, size);
    assert(!starts_with(l0, pf)) by {
        assert(l0.take(pf.len() as int)[0] != pf[0]);
    }
    assert(!starts_with(l0, pm)) by {
        assert(l0.take(pm.len() as int)[0] != pm[0]);
    }
    assert(!starts_with(l0, ps)) by {
        assert(l0.take(ps.len() as int)[0] != ps[0]);
    }
    let s1 = crate::text::strip_cr(l1);
    let s2 = crate::text::strip_cr(l2);
    assert(s1.take(pf.len() as int) == pf);
    assert(s2.take(pm.len() as int) == pm);
    assert(!starts_with(s1, pm)) by {
        assert(s1[1] == pf[1]);
        assert(s1.take(pm.len() as int)[1] != pm[1]);
    }
    assert(!starts_with(s1, ps)) by {
        assert(s1[0] == pf[0]);
        assert(s1.take(ps.len() as int)[0] != ps[0]);
    }
    assert(!starts_with(s2, ps)) by {
        assert(s2[0] == pm[0]);
        assert(s2.take(ps.len() as int)[0] != ps[0]);
    }
    reveal_with_fuel(field_value, 5);
    assert(ls.drop_first()[0] == ls[1]);
    assert(ls.drop_first().drop_first()[0] == ls[2]);
    assert(ls.drop_first().drop_first().drop_first()[0] == ls[3]);
}

/// Reading a field back from an image's memory text
/// (`ImageMetadata::to_memory_content`) with `extract_field_from_content`
/// gives the field, trimmed: the file name under "Filename:", the format
/// under "Format:" and the size under "Size:", when none of them holds a
/// line break.
pub proof fn lemma_image_metadata_read_back(m: ImageMetadata)
    requires
        !m.filename@.contains('\n'),
        !m.format@.contains('\n'),
        !m.file_size_human@.contains('\n'),
    ensures
        ({
            let text = image_memory_text(
                m.filename@,
                m.format@,
                m.file_size_human@,
                match m.svg_content_preview {
                    Some(s) => Some(s@),
                    None => None,
                },
                m.note@,
            );
            &&& field_value(lines(text), "Filename:"@) == trim(m.filename@)
            &&& field_value(lines(text), "Format:"@) == trim(m.format@)
            &&& field_value(lines(text), "Size:"@) == trim(m.file_size_human@)
        }),
{
    lemma_image_fields_read_back(
        m.filename@,
        m.format@,
        m.file_size_human@,
        match m.svg_content_preview {
            Some(s) => Some(s@),
            None => None,
        },
        m.note@,
    );
}

/// How many bytes satisfy `pred`.
pub open spec fn count_bytes(b: Seq<u8>, pred: spec_fn(u8) -> bool) -> nat {
    b.filter(pred).len()
}

/// A zero byte.
pub open spec fn is_null() -> spec_fn(u8) -> bool {
    |x: u8| x == 0
}

/// A printable ASCII byte or any byte of a multi-byte character.
pub open spec fn is_printable() -> spec_fn(u8) -> bool {
    |x: u8| (32 <= x && x < 127) || x >= 128
}

/// `b` begins with the bytes `p`.
pub open spec fn bytes_start_with(b: Seq<u8>, p: Seq<u8>) -> bool {
    p.len() <= b.len() && b.take(p.len() as int) == p
}

/// Leading bytes of common binary formats: ZIP, PNG, GIF, JPEG and BMP.
pub open spec fn has_binary_magic(b: Seq<u8>) -> bool {
    ||| bytes_start_with(b, seq![0x50u8, 0x4Bu8, 0x03u8, 0x04u8])
    ||| bytes_start_with(b, seq![0x89u8, 0x50u8, 0x4Eu8, 0x47u8])
    ||| bytes_start_with(b, seq![0x47u8, 0x49u8, 0x46u8, 0x38u8])
    ||| bytes_start_with(b, seq![0xFFu8, 0xD8u8, 0xFFu8])
    ||| bytes_start_with(b, seq![0x42u8, 0x4Du8, 0x00u8, 0x00u8])
}

/// Whether stored text looks like binary data: at least 10 bytes, and
/// either a zero byte, fewer than 30% printable bytes, or the leading bytes
/// of a common binary format.
pub open spec fn looks_like_garbage(b: Seq<u8>) -> bool {
    if b.len() < 10 {
        false
    } else if count_bytes(b, is_null()) > 0 {
        true
    } else if 10 * count_bytes(b, is_printable()) < 3 * b.len() {
        true
    } else {
        has_binary_magic(b)
    }
}

/// Number of bytes of `b` that satisfy the predicate selected by `printable`.
fn count_matching(b: &[u8], printable: bool) -> (n: usize)
    ensures
        n == count_bytes(b@, if printable { is_printable() } else { is_null() }),
{
    let ghost pred = if printable { is_printable() } else { is_null() };
    let mut n: usize = 0;
    let mut i: usize = 0;
    while i < b.len()
        invariant
            i <= b.len(),
            pred == (if printable { is_printable() } else { is_null() }),
            n == b@.take(i as int).filter(pred).len(),
            n <= i,
        decreases b.len() - i,
    {
        proof {
            assert(b@.take(i + 1).drop_last() =~= b@.take(i as int));
            reveal_with_fuel(Seq::filter, 1);
        }
        let x = b[i];
        let hit = if printable {
            (32 <= x && x < 127) || x >= 128
        } else {
            x == 0
        };
        if hit {
            n += 1;
        }
        i += 1;
    }
    assert(b@.take(b@.len() as int) =~= b@);
    n
}

fn bytes_prefix(b: &[u8], p: &[u8]) -> (r: bool)
    ensures
        r == bytes_start_with(b@, p@),
{
    if p.len() > b.len() {
        return false;
    }
    let mut i: usize = 0;
    while i < p.len()
        invariant
            i <= p.len() <= b.len(),
            forall|j: int| 0 <= j < i ==> b@[j] == p@[j],
        decreases p.len() - i,
    {
        if b[i] != p[i] {
            assert(b@.take(p@.len() as int)[i as int] != p@[i as int]);
            return false;
        }
        i += 1;
    }
    assert(b@.take(p@.len() as int) =~= p@);
    true
}

/// Check if content looks like binary garbage; see `looks_like_garbage`.
/// The share of printable bytes is compared exactly, in integers.
pub fn content_looks_like_garbage(content: &str) -> (r: bool)
    ensures
        r == looks_like_garbage(encode_utf8(content@)),
{
    let bytes = content.as_bytes();
    if bytes.len() < 10 {
        return false;
    }
    let nulls = count_matching(bytes, false);
    if nulls > 0 {
        return true;
    }
    let printable = count_matching(bytes, true);
    if (printable as u128) * 10 < (bytes.len() as u128) * 3 {
        return true;
    }
    let zip: [u8; 4] = [0x50, 0x4B, 0x03, 0x04];
    let png: [u8; 4] = [0x89, 0x50, 0x4E, 0x47];
    let gif: [u8; 4] = [0x47, 0x49, 0x46, 0x38];
    let jpeg: [u8; 3] = [0xFF, 0xD8, 0xFF];
    let bmp: [u8; 4] = [0x42, 0x4D, 0x00, 0x00];
    assert(zip@ =~= seq![0x50u8, 0x4Bu8, 0x03u8, 0x04u8]);
    assert(png@ =~= seq![0x89u8, 0x50u8, 0x4Eu8, 0x47u8]);
    assert(gif@ =~= seq![0x47u8, 0x49u8, 0x46u8, 0x38u8]);
    assert(jpeg@ =~= seq![0xFFu8, 0xD8u8, 0xFFu8]);
    assert(bmp@ =~= seq![0x42u8, 0x4Du8, 0x00u8, 0x00u8]);
    bytes_prefix(bytes, &zip) || bytes_prefix(bytes, &png) || bytes_prefix(bytes, &gif)
        || bytes_prefix(bytes, &jpeg) || bytes_prefix(bytes, &bmp)
}

/// Whether a cleanup was confirmed: the answer is "yes", "y" or "true",
/// in any case.
pub fn cleanup_confirmed(confirmation: &str) -> (r: bool)
    ensures
        r == (crate::text::spec_to_lowercase(confirmation@) == "yes"@
            || crate::text::spec_to_lowercase(confirmation@) == "y"@
            || crate::text::spec_to_lowercase(confirmation@) == "true"@),
{
    let lower = to_lowercase(confirmation);
    let l = lower.as_str();
    str_eq(l, "yes") || str_eq(l, "y") || str_eq(l, "true")
}

/// What a stored memory turns out to be when images are listed.
#[derive(Debug, Clone, Copy, PartialEq, Eq, Structural)]
pub enum StoredContentKind {
    /// An image description: the text starts with "IMAGE FILE".
    ImageDescription,
    /// Binary data stored as text; see `looks_like_garbage`.
    Garbage,
    /// Anything else.
    Other,
}

/// The kind of some stored content.
pub open spec fn stored_content_kind(content: Seq<char>) -> StoredContentKind {
    if starts_with(content, "IMAGE FILE"@) {
        StoredContentKind::ImageDescription
    } else if looks_like_garbage(encode_utf8(content)) {
        StoredContentKind::Garbage
    } else {
        StoredContentKind::Other
    }
}

/// Classify stored content; see `stored_content_kind`.
pub fn classify_stored_content(content: &str) -> (r: StoredContentKind)
    ensures
        r == stored_content_kind(content@),
{
    let c = to_chars(content);
    if starts_with_chars(c.as_slice(), to_chars("IMAGE FILE").as_slice()) {
        StoredContentKind::ImageDescription
    } else if content_looks_like_garbage(content) {
        StoredContentKind::Garbage
    } else {
        StoredContentKind::Other
    }
}

/// A preview of some text: all of it when it has at most `max` bytes, else
/// its first `max` bytes followed by "...". Longer text must have a
/// character boundary at byte `max`, where it is cut.
pub fn text_preview(content: &str, max: usize) -> (r: String)
    requires
        encode_utf8(content@).len() > max ==> vstd::utf8::is_char_boundary(encode_utf8(content@), max as int),
    ensures
        encode_utf8(content@).len() <= max ==> r@ == content@,
        encode_utf8(content@).len() > max ==> r@ == vstd::utf8::decode_utf8(
            encode_utf8(content@).take(max as int),
        ) + "..."@,
{
    let b = content.as_bytes();
    if b.len() <= max {
        return owned(content);
    }
    let (head, _) = content.split_at(max);
    let mut r = owned(head);
    r.append("...");
    proof {
        vstd::utf8::encode_utf8_decode_utf8(head@);
        assert(encode_utf8(content@).subrange(0, max as int) =~= encode_utf8(content@).take(max as int));
    }
    r
}

/// A preview of an image description: its first five lines, joined by
/// newlines.
pub fn image_preview(content: &str) -> (r: String)
    ensures
        r@ == crate::text::join(lines(content@).take(
            if lines(content@).len() < 5 {
                lines(content@).len() as int
            } else {
                5
            },
        ), "\n"@),
{
    let c = to_chars(content);
    let mut ls = lines_chars(c.as_slice());
    if ls.len() > 5 {
        ls.truncate(5);
    }
    let ghost all = lines(content@);
    assert(views_of(ls@) =~= all.take(
        if all.len() < 5 {
            all.len() as int
        } else {
            5
        },
    ));
    let nl = to_chars("\n");
    let j = crate::text::join_chars(&ls, nl.as_slice());
    from_chars(j.as_slice())
}

} // verus!

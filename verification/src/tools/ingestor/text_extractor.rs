//! Text extraction helpers: tag stripping, chunking, text quality checks,
//! image and SVG descriptions, Chroma exports and raw PDF text.

use vstd::prelude::*;
use crate::text::{
    to_chars, from_chars, trim, trim_chars, lines, join, views_of, decimal, append_chars,
    append_decimal, slice_to_vec, string_views, contains, starts_with, find, split_str,
};
use crate::tools::ingestor::semantic_chunker::{outside_tags, tidy_lines, outside_tags_exec, tidy_lines_exec};
use vstd::utf8::encode_utf8;
use crate::tools::ingestor::json_importer::{string_items, string_items_exec};
use crate::json::{JsonValue, JsonSpec, json_get, json_str, json_view, json_views, pretty_text, to_pretty_string, lemma_array_view, get, as_str};

verus! {

/// Text of an XML or HTML document: characters outside tags, then the
/// non-blank lines trimmed and joined by newlines.
pub open spec fn markup_text(s: Seq<char>) -> Seq<char> {
    tidy_lines(outside_tags(s).0)
}

/// Strip XML/HTML tags and extract text content; see `markup_text`.
pub fn strip_xml_tags(xml: &str) -> (r: String)
    ensures
        r@ == markup_text(xml@),
{
    let c = to_chars(xml);
    let o = outside_tags_exec(c.as_slice());
    let t = tidy_lines_exec(o.as_slice());
    from_chars(t.as_slice())
}

/// Strip HTML tags; the same as `strip_xml_tags`.
pub fn strip_html_tags(html: &str) -> (r: String)
    ensures
        r@ == markup_text(html@),
{
    strip_xml_tags(html)
}

// ---------------------------------------------------------------------------
// Chunking
// ---------------------------------------------------------------------------

/// The `(start, end)` ranges of overlapping chunks of a sequence of length
/// `len`: each chunk holds up to `size` elements and the next one starts
/// `overlap` elements before the end of the previous one.
pub open spec fn chunk_bounds(len: int, start: int, size: int, overlap: int) -> Seq<(int, int)>
    decreases len - start,
{
    if start < 0 || start >= len {
        Seq::empty()
    } else {
        let end = if start + size < len { start + size } else { len };
        if end >= len {
            seq![(start, end)]
        } else if overlap >= 0 && end - overlap > start {
            seq![(start, end)] + chunk_bounds(len, end - overlap, size, overlap)
        } else {
            seq![(start, end)]
        }
    }
}

/// Chunks of a text: the whole text when it is at most `size` bytes long,
/// otherwise overlapping runs of at most `size` characters.
pub open spec fn char_chunks(text: Seq<char>, size: nat, overlap: nat) -> Seq<Seq<char>> {
    if encode_utf8(text).len() <= size {
        seq![text]
    } else {
        chunk_bounds(text.len() as int, 0, size as int, overlap as int).map_values(
            |p: (int, int)| text.subrange(p.0, p.1),
        )
    }
}

pub proof fn lemma_chunk_bounds_step(len: int, start: int, size: int, overlap: int)
    requires
        0 <= start < len,
        0 <= overlap < size,
    ensures
        ({
            let end = if start + size < len { start + size } else { len };
            &&& start < end <= len
            &&& end < len ==> end - overlap > start && chunk_bounds(len, start, size, overlap)
                == seq![(start, end)] + chunk_bounds(len, end - overlap, size, overlap)
            &&& end >= len ==> chunk_bounds(len, start, size, overlap) == seq![(start, end)]
        }),
{
}

/// Chunking covers the whole sequence with overlapping pieces: the first
/// piece starts at `start`, the last ends at the end, every piece is
/// non-empty and at most `size` long, and each piece after the first starts
/// `overlap` elements before the end of the one before it.
pub proof fn lemma_chunk_bounds_cover(len: int, start: int, size: int, overlap: int)
    requires
        0 <= start < len,
        0 <= overlap < size,
    ensures
        ({
            let b = chunk_bounds(len, start, size, overlap);
            &&& b.len() > 0
            &&& b[0].0 == start
            &&& b.last().1 == len
            &&& forall|i: int| 0 <= i < b.len() ==> b[i].0 < #[trigger] b[i].1 <= len && b[i].1 - b[i].0 <= size
            &&& forall|i: int| 0 < i < b.len() ==> #[trigger] b[i].0 == b[i - 1].1 - overlap
        }),
    decreases len - start,
{
    lemma_chunk_bounds_step(len, start, size, overlap);
    let end = if start + size < len { start + size } else { len };
    let b = chunk_bounds(len, start, size, overlap);
    if end < len {
        let next = end - overlap;
        lemma_chunk_bounds_cover(len, next, size, overlap);
        let rest = chunk_bounds(len, next, size, overlap);
        assert(b == seq![(start, end)] + rest);
        assert forall|i: int| 0 <= i < b.len() implies b[i].0 < #[trigger] b[i].1 <= len && b[i].1
            - b[i].0 <= size by {
            if i > 0 {
                assert(b[i] == rest[i - 1]);
            }
        }
        assert forall|i: int| 0 < i < b.len() implies #[trigger] b[i].0 == b[i - 1].1 - overlap by {
            assert(b[i] == rest[i - 1]);
            if i > 1 {
                assert(b[i - 1] == rest[i - 2]);
            }
        }
    }
}

/// Chunk text into pieces of at most `chunk_size` characters, consecutive
/// pieces sharing `overlap` characters; see `char_chunks`. The pieces
/// advance only when the overlap is smaller than the chunk size.
pub fn chunk_text(text: &str, chunk_size: usize, overlap: usize) -> (r: Vec<String>)
    requires
        encode_utf8(text@).len() > chunk_size ==> overlap < chunk_size,
    ensures
        string_views(r@) == char_chunks(text@, chunk_size as nat, overlap as nat),
{
    if text.as_bytes().len() <= chunk_size {
        let mut v: Vec<String> = Vec::new();
        v.push(crate::text::owned(text));
        assert(string_views(v@) =~= char_chunks(text@, chunk_size as nat, overlap as nat));
        return v;
    }
    let chars = to_chars(text);
    let n = chars.len();
    let ghost all = chunk_bounds(n as int, 0, chunk_size as int, overlap as int).map_values(
        |p: (int, int)| text@.subrange(p.0, p.1),
    );
    let mut chunks: Vec<String> = Vec::new();
    let mut start: usize = 0;
    while start < n
        invariant
            n == chars@.len(),
            chars@ == text@,
            overlap < chunk_size,
            start <= n,
            all == string_views(chunks@) + chunk_bounds(n as int, start as int, chunk_size as int, overlap as int).map_values(
                |p: (int, int)| text@.subrange(p.0, p.1),
            ),
        decreases n - start,
    {
        proof {
            lemma_chunk_bounds_step(n as int, start as int, chunk_size as int, overlap as int);
        }
        let end = if chunk_size < n - start { start + chunk_size } else { n };
        let piece = slice_to_vec(chars.as_slice(), start, end);
        let ghost before = string_views(chunks@);
        chunks.push(from_chars(piece.as_slice()));
        if end >= n {
            proof {
                assert(string_views(chunks@) =~= before.push(text@.subrange(start as int, end as int)));
                assert(chunk_bounds(n as int, end as int, chunk_size as int, overlap as int) =~= Seq::<(int, int)>::empty());
                assert(all =~= string_views(chunks@));
            }
            start = n;
        } else {
            proof {
                let rest = chunk_bounds(n as int, (end - overlap) as int, chunk_size as int, overlap as int);
                assert(string_views(chunks@) =~= before.push(text@.subrange(start as int, end as int)));
                assert((seq![(start as int, end as int)] + rest).map_values(|p: (int, int)| text@.subrange(p.0, p.1))
                    =~= seq![text@.subrange(start as int, end as int)] + rest.map_values(|p: (int, int)| text@.subrange(p.0, p.1)));
                assert(all =~= string_views(chunks@) + rest.map_values(|p: (int, int)| text@.subrange(p.0, p.1)));
            }
            start = end - overlap;
        }
    }
    assert(chunk_bounds(n as int, start as int, chunk_size as int, overlap as int) =~= Seq::<(int, int)>::empty());
    assert(string_views(chunks@) =~= all);
    chunks
}


// ---------------------------------------------------------------------------
// Text quality
// ---------------------------------------------------------------------------

/// The verdict on whether content is readable text.
#[derive(Debug, Clone, Copy, PartialEq, Eq, Structural)]
pub enum TextQuality {
    /// Readable text.
    Valid,
    /// Empty or whitespace only.
    Empty,
    /// Holds this many zero bytes.
    NullBytes(usize),
    /// Fewer than 70% of the bytes are printable.
    MostlyBinary { printable: usize, total: usize },
    /// More than a tenth of the bytes are control characters.
    ControlCharacters(usize),
    /// More than one in a hundred bytes' worth of U+FFFD replacement characters.
    ReplacementCharacters(usize),
}

/// A zero byte.
pub open spec fn is_null_byte() -> spec_fn(u8) -> bool {
    |b: u8| b == 0
}

/// A control byte other than zero, tab, newline and carriage return.
pub open spec fn is_control_byte() -> spec_fn(u8) -> bool {
    |b: u8| b != 0 && b < 32 && b != 9 && b != 10 && b != 13
}

/// A printable ASCII byte or any byte of a multi-byte character.
pub open spec fn is_printable_byte() -> spec_fn(u8) -> bool {
    |b: u8| (32 <= b && b < 127) || b >= 128
}

/// The replacement character U+FFFD.
pub open spec fn is_replacement() -> spec_fn(char) -> bool {
    |c: char| c == '\u{FFFD}'
}

/// The quality verdict for some content: empty; else, by its UTF-8 bytes,
/// any zero byte; fewer than 70% printable bytes; more control bytes than
/// a tenth of the length; more replacement characters than a hundredth of
/// the length; else valid.
pub open spec fn text_quality_of(content: Seq<char>) -> TextQuality {
    let b = encode_utf8(content);
    let len = b.len();
    let nulls = b.filter(is_null_byte()).len();
    let printable = b.filter(is_printable_byte()).len();
    let controls = b.filter(is_control_byte()).len();
    let replacements = content.filter(is_replacement()).len();
    if trim(content).len() == 0 {
        TextQuality::Empty
    } else if nulls > 0 {
        TextQuality::NullBytes(nulls as usize)
    } else if 10 * printable < 7 * len {
        TextQuality::MostlyBinary { printable: printable as usize, total: len as usize }
    } else if controls > len / 10 {
        TextQuality::ControlCharacters(controls as usize)
    } else if replacements > len / 100 {
        TextQuality::ReplacementCharacters(replacements as usize)
    } else {
        TextQuality::Valid
    }
}

fn count_bytes(b: &[u8], which: u8) -> (n: usize)
    requires
        which < 3,
    ensures
        n == b@.filter(
            if which == 0 {
                is_null_byte()
            } else if which == 1 {
                is_printable_byte()
            } else {
                is_control_byte()
            },
        ).len(),
        n <= b@.len(),
{
    let ghost pred = if which == 0 {
        is_null_byte()
    } else if which == 1 {
        is_printable_byte()
    } else {
        is_control_byte()
    };
    let mut n: usize = 0;
    let mut i: usize = 0;
    assert(b@.take(0).filter(pred) =~= Seq::<u8>::empty());
    while i < b.len()
        invariant
            i <= b.len(),
            which < 3,
            pred == (if which == 0 {
                is_null_byte()
            } else if which == 1 {
                is_printable_byte()
            } else {
                is_control_byte()
            }),
            n == b@.take(i as int).filter(pred).len(),
            n <= i,
        decreases b.len() - i,
    {
        proof {
            assert(b@.take(i + 1).drop_last() =~= b@.take(i as int));
            reveal_with_fuel(Seq::filter, 1);
        }
        let x = b[i];
        let hit = if which == 0 {
            x == 0
        } else if which == 1 {
            (32 <= x && x < 127) || x >= 128
        } else {
            x != 0 && x < 32 && x != 9 && x != 10 && x != 13
        };
        if hit {
            n += 1;
        }
        i += 1;
    }
    assert(b@.take(b@.len() as int) =~= b@);
    n
}

fn count_replacements(c: &[char]) -> (n: usize)
    ensures
        n == c@.filter(is_replacement()).len(),
{
    let mut n: usize = 0;
    let mut i: usize = 0;
    assert(c@.take(0).filter(is_replacement()) =~= Seq::<char>::empty());
    while i < c.len()
        invariant
            i <= c.len(),
            n == c@.take(i as int).filter(is_replacement()).len(),
            n <= i,
        decreases c.len() - i,
    {
        proof {
            assert(c@.take(i + 1).drop_last() =~= c@.take(i as int));
            reveal_with_fuel(Seq::filter, 1);
        }
        if c[i] == '\u{FFFD}' {
            n += 1;
        }
        i += 1;
    }
    assert(c@.take(c@.len() as int) =~= c@);
    n
}

/// Check whether content looks like readable text; see `text_quality_of`.
/// The share of printable bytes is compared exactly, in integers.
pub fn text_quality(content: &str) -> (r: TextQuality)
    ensures
        r == text_quality_of(content@),
{
    let c = to_chars(content);
    let t = trim_chars(c.as_slice());
    if t.len() == 0 {
        return TextQuality::Empty;
    }
    let b = content.as_bytes();
    let len = b.len();
    let nulls = count_bytes(b, 0);
    if nulls > 0 {
        return TextQuality::NullBytes(nulls);
    }
    let printable = count_bytes(b, 1);
    if (printable as u128) * 10 < (len as u128) * 7 {
        return TextQuality::MostlyBinary { printable, total: len };
    }
    let controls = count_bytes(b, 2);
    if controls > len / 10 {
        return TextQuality::ControlCharacters(controls);
    }
    let reps = count_replacements(c.as_slice());
    if reps > len / 100 {
        return TextQuality::ReplacementCharacters(reps);
    }
    TextQuality::Valid
}

// ---------------------------------------------------------------------------
// Images and SVG
// ---------------------------------------------------------------------------

/// The value of `attr="..."` (or `attr='...'`, tried second) at its first
/// occurrence, when its closing quote follows.
pub open spec fn svg_attr(content: Seq<char>, attr: Seq<char>) -> Option<Seq<char>> {
    match quoted_attr(content, attr, '"') {
        Some(v) => Some(v),
        None => quoted_attr(content, attr, '\''),
    }
}

/// The value of `attr=` followed by quote `q`, up to the next `q`.
pub open spec fn quoted_attr(content: Seq<char>, attr: Seq<char>, q: char) -> Option<Seq<char>> {
    let pattern = attr + "="@ + seq![q];
    match find(content, pattern) {
        Some(pos) => {
            let start = pos + pattern.len();
            match find(content.skip(start), seq![q]) {
                Some(e) => Some(content.subrange(start, start + e)),
                None => None,
            }
        },
        None => None,
    }
}

fn quoted_attr_exec(content: &[char], attr: &[char], q: char) -> (r: Option<Vec<char>>)
    ensures
        match r {
            Some(v) => quoted_attr(content@, attr@, q) == Some(v@),
            None => quoted_attr(content@, attr@, q) is None,
        },
{
    let mut pattern = slice_to_vec(attr, 0, attr.len());
    assert(pattern@ =~= attr@);
    pattern.push('=');
    pattern.push(q);
    proof {
        reveal_strlit("=");
        assert(pattern@ =~= attr@ + "="@ + seq![q]);
        crate::text::lemma_find_some(content@, pattern@);
    }
    match crate::text::find_chars(content, pattern.as_slice()) {
        Some(pos) => {
            assert(crate::text::first_match(content@, pattern@, pos as int));
            let pl = pattern.len();
            let cl = content.len();
            assert(pos + pl <= cl);
            let start = pos + pl;
            let rest = slice_to_vec(content, start, cl);
            assert(rest@ =~= content@.skip(start as int));
            let mut qv: Vec<char> = Vec::new();
            qv.push(q);
            assert(qv@ =~= seq![q]);
            proof {
                crate::text::lemma_find_some(rest@, qv@);
            }
            match crate::text::find_chars(rest.as_slice(), qv.as_slice()) {
                Some(e) => {
                    assert(crate::text::first_match(rest@, qv@, e as int));
                    let v = slice_to_vec(content, start, start + e);
                    Some(v)
                },
                None => None,
            }
        },
        None => None,
    }
}

/// Extract an attribute value from SVG content; see `svg_attr`.
pub fn extract_svg_attr(content: &str, attr: &str) -> (r: Option<String>)
    ensures
        match r {
            Some(v) => svg_attr(content@, attr@) == Some(v@),
            None => svg_attr(content@, attr@) is None,
        },
{
    let c = to_chars(content);
    let a = to_chars(attr);
    match quoted_attr_exec(c.as_slice(), a.as_slice(), '"') {
        Some(v) => Some(from_chars(v.as_slice())),
        None => match quoted_attr_exec(c.as_slice(), a.as_slice(), '\'') {
            Some(v) => Some(from_chars(v.as_slice())),
            None => None,
        },
    }
}

/// Number of non-overlapping occurrences of a non-empty pattern.
pub open spec fn occurrences(s: Seq<char>, p: Seq<char>) -> int {
    split_str(s, p).len() - 1
}

pub proof fn lemma_split_str_nonempty(s: Seq<char>, p: Seq<char>)
    ensures
        split_str(s, p).len() >= 1,
    decreases s.len(),
{
    if p.len() > 0 {
        match find(s, p) {
            Some(k) => {
                if 0 <= k && k + p.len() <= s.len() {
                    lemma_split_str_nonempty(s.skip(k + p.len()), p);
                }
            },
            None => {},
        }
    }
}

fn occurrences_exec(s: &[char], p: &str) -> (n: usize)
    requires
        p@.len() > 0,
    ensures
        n == occurrences(s@, p@),
{
    let pc = to_chars(p);
    let pieces = crate::text::split_str_chars(s, pc.as_slice());
    proof {
        lemma_split_str_nonempty(s@, p@);
        assert(views_of(pieces@).len() == pieces@.len());
    }
    pieces.len() - 1
}

/// `{label}{value}\n` when the attribute is present.
pub open spec fn attr_line(label: Seq<char>, v: Option<Seq<char>>) -> Seq<char> {
    match v {
        Some(x) => label + x + "\n"@,
        None => Seq::empty(),
    }
}

/// The lines describing SVG content.
pub open spec fn svg_info_text(content: Seq<char>) -> Seq<char> {
    let rects = occurrences(content, "<rect"@);
    let circles = occurrences(content, "<circle"@);
    let paths = occurrences(content, "<path"@);
    let texts = occurrences(content, "<text"@);
    attr_line("Width: "@, svg_attr(content, "width"@)) + attr_line("Height: "@, svg_attr(content, "height"@))
        + attr_line("ViewBox: "@, svg_attr(content, "viewBox"@)) + if rects > 0 || circles > 0 || paths
        > 0 || texts > 0 {
        "Contains: "@ + decimal((paths + rects + circles) as nat) + " shapes, "@ + decimal(texts as nat)
            + " text elements\n"@
    } else {
        Seq::empty()
    }
}

/// A description of SVG content: its width, height and view box when
/// given, and its shape and text element counts when there are any; `None`
/// for content that does not start (after whitespace) as XML or SVG, or
/// when there is nothing to say.
pub open spec fn svg_description(content: Seq<char>) -> Option<Seq<char>> {
    let t = trim(content);
    if !starts_with(t, "<?xml"@) && !starts_with(t, "<svg"@) {
        None
    } else {
        let info = svg_info_text(content);
        if info.len() == 0 {
            None
        } else {
            Some(info)
        }
    }
}

fn append_attr_line(v: &mut Vec<char>, label: &str, content: &str, attr: &str)
    ensures
        final(v)@ == old(v)@ + attr_line(label@, svg_attr(content@, attr@)),
{
    match extract_svg_attr(content, attr) {
        Some(x) => {
            let l = to_chars(label);
            append_chars(v, l.as_slice());
            let xv = to_chars(x.as_str());
            append_chars(v, xv.as_slice());
            let nl = to_chars("\n");
            append_chars(v, nl.as_slice());
            assert(v@ =~= old(v)@ + attr_line(label@, svg_attr(content@, attr@)));
        },
        None => {
            assert(v@ =~= old(v)@ + attr_line(label@, svg_attr(content@, attr@)));
        },
    }
}

/// Describe SVG content; see `svg_description`.
pub fn svg_info(content: &str) -> (r: Option<String>)
    ensures
        match r {
            Some(v) => svg_description(content@) == Some(v@),
            None => svg_description(content@) is None,
        },
{
    let c = to_chars(content);
    let t = trim_chars(c.as_slice());
    let xml = to_chars("<?xml");
    let svg = to_chars("<svg");
    if !crate::text::starts_with_chars(t.as_slice(), xml.as_slice()) && !crate::text::starts_with_chars(t.as_slice(), svg.as_slice()) {
        return None;
    }
    let mut info: Vec<char> = Vec::new();
    append_attr_line(&mut info, "Width: ", content, "width");
    append_attr_line(&mut info, "Height: ", content, "height");
    append_attr_line(&mut info, "ViewBox: ", content, "viewBox");
    proof {
        reveal_strlit("<rect");
        reveal_strlit("<circle");
        reveal_strlit("<path");
        reveal_strlit("<text");
    }
    let rects = occurrences_exec(c.as_slice(), "<rect");
    let circles = occurrences_exec(c.as_slice(), "<circle");
    let paths = occurrences_exec(c.as_slice(), "<path");
    let texts = occurrences_exec(c.as_slice(), "<text");
    if rects > 0 || circles > 0 || paths > 0 || texts > 0 {
        let label = to_chars("Contains: ");
        append_chars(&mut info, label.as_slice());
        let shapes: u128 = paths as u128 + rects as u128 + circles as u128;
        let digits = crate::text::decimal_chars_wide(shapes);
        append_chars(&mut info, digits.as_slice());
        let mid = to_chars(" shapes, ");
        append_chars(&mut info, mid.as_slice());
        append_decimal(&mut info, texts as u64);
        let tail = to_chars(" text elements\n");
        append_chars(&mut info, tail.as_slice());
    }
    assert(info@ =~= svg_info_text(content@));
    if info.len() == 0 {
        None
    } else {
        Some(from_chars(info.as_slice()))
    }
}

/// Image metadata: only the description of the file is stored, never its content.
#[derive(Debug, Clone)]
pub struct ImageMetadata {
    pub filename: String,
    pub path: String,
    pub format: String,
    pub file_size_bytes: u64,
    pub file_size_human: String,
    pub has_svg_content: bool,
    pub svg_content_preview: Option<String>,
    pub note: String,
}

/// The memory text of an image description.
pub open spec fn image_memory_text(filename: Seq<char>, format: Seq<char>, size: Seq<char>, svg: Option<Seq<char>>, note: Seq<char>) -> Seq<char> {
    "IMAGE FILE\nFilename: "@ + filename + "\nFormat: "@ + format + "\nSize: "@ + size + "\n"@
        + match svg {
            Some(info) => "\nSVG Details:\n"@ + info,
            None => Seq::empty(),
        } + "\nNote: "@ + note + "\n"@
}

impl ImageMetadata {
    /// Convert to memory-friendly text; see `image_memory_text`.
    pub fn to_memory_content(&self) -> (r: String)
        ensures
            r@ == image_memory_text(
                self.filename@,
                self.format@,
                self.file_size_human@,
                match self.svg_content_preview {
                    Some(s) => Some(s@),
                    None => None,
                },
                self.note@,
            ),
    {
        let mut v = to_chars("IMAGE FILE\nFilename: ");
        let f = to_chars(self.filename.as_str());
        append_chars(&mut v, f.as_slice());
        let a = to_chars("\nFormat: ");
        append_chars(&mut v, a.as_slice());
        let fm = to_chars(self.format.as_str());
        append_chars(&mut v, fm.as_slice());
        let b = to_chars("\nSize: ");
        append_chars(&mut v, b.as_slice());
        let sz = to_chars(self.file_size_human.as_str());
        append_chars(&mut v, sz.as_slice());
        let nl = to_chars("\n");
        append_chars(&mut v, nl.as_slice());
        match &self.svg_content_preview {
            Some(info) => {
                let d = to_chars("\nSVG Details:\n");
                append_chars(&mut v, d.as_slice());
                let iv = to_chars(info.as_str());
                append_chars(&mut v, iv.as_slice());
            },
            None => {},
        }
        let n = to_chars("\nNote: ");
        append_chars(&mut v, n.as_slice());
        let nv = to_chars(self.note.as_str());
        append_chars(&mut v, nv.as_slice());
        append_chars(&mut v, nl.as_slice());
        assert(v@ =~= image_memory_text(
            self.filename@,
            self.format@,
            self.file_size_human@,
            match self.svg_content_preview {
                Some(s) => Some(s@),
                None => None,
            },
            self.note@,
        ));
        from_chars(v.as_slice())
    }
}


// ---------------------------------------------------------------------------
// Chroma exports
// ---------------------------------------------------------------------------

/// Whether JSON text looks like a Chroma export: ignoring case, it names a
/// `"documents"` member and an `"embeddings"` or `"metadatas"` one.
pub open spec fn looks_like_chroma(content: Seq<char>) -> bool {
    let lower = crate::text::spec_to_lowercase(content);
    contains(lower, "\"documents\""@) && (contains(lower, "\"embeddings\""@) || contains(
        lower,
        "\"metadatas\""@,
    ))
}

/// Check if JSON content looks like a Chroma export; see `looks_like_chroma`.
pub fn is_chroma_export(content: &str) -> (r: bool)
    ensures
        r == looks_like_chroma(content@),
{
    let lower = crate::text::to_lowercase(content);
    let l = to_chars(lower.as_str());
    let d = to_chars("\"documents\"");
    let e = to_chars("\"embeddings\"");
    let m = to_chars("\"metadatas\"");
    crate::text::contains_chars(l.as_slice(), d.as_slice()) && (crate::text::contains_chars(
        l.as_slice(),
        e.as_slice(),
    ) || crate::text::contains_chars(l.as_slice(), m.as_slice()))
}

/// The items of the first list under `key` (Chroma nests each column in
/// an outer list).
pub open spec fn first_list(v: JsonSpec, key: Seq<char>) -> Option<Seq<JsonSpec>> {
    match json_get(v, key) {
        Some(JsonSpec::Array(outer)) => if outer.len() > 0 {
            match outer[0] {
                JsonSpec::Array(inner) => Some(inner),
                _ => None,
            }
        } else {
            None
        },
        _ => None,
    }
}

/// Identifier texts: a string as is, a list as its strings joined by `, `;
/// other values are skipped.
pub open spec fn id_texts(items: Seq<JsonSpec>) -> Seq<Seq<char>>
    decreases items.len(),
{
    if items.len() == 0 {
        Seq::empty()
    } else {
        let prev = id_texts(items.drop_last());
        match items.last() {
            JsonSpec::Str(s) => prev.push(s),
            JsonSpec::Array(xs) => prev.push(join(string_items(xs), ", "@)),
            _ => prev,
        }
    }
}

/// The documents, metadata (pretty JSON) and identifiers of an export.
pub open spec fn chroma_columns(v: JsonSpec) -> (Seq<Seq<char>>, Seq<Seq<char>>, Seq<Seq<char>>) {
    let docs = match first_list(v, "documents"@) {
        Some(a) => string_items(a),
        None => Seq::empty(),
    };
    let metas = match first_list(v, "metadatas"@) {
        Some(a) => Seq::new(a.len(), |i: int| pretty_text(a[i], 0)),
        None => Seq::empty(),
    };
    let ids = match first_list(v, "ids"@) {
        Some(a) => id_texts(a),
        None => Seq::empty(),
    };
    (docs, metas, ids)
}

/// The block of document `i`: a separator, its identifier and metadata
/// when there are that many, and its content.
pub open spec fn chroma_entry(docs: Seq<Seq<char>>, metas: Seq<Seq<char>>, ids: Seq<Seq<char>>, i: int) -> Seq<char> {
    "---\n"@ + (if i < ids.len() {
        "ID: "@ + ids[i] + "\n"@
    } else {
        Seq::empty()
    }) + (if i < metas.len() {
        "Metadata: "@ + metas[i] + "\n"@
    } else {
        Seq::empty()
    }) + "Content:\n"@ + docs[i] + "\n\n"@
}

/// The blocks of the first `n` documents.
pub open spec fn chroma_entries(docs: Seq<Seq<char>>, metas: Seq<Seq<char>>, ids: Seq<Seq<char>>, n: nat) -> Seq<char>
    decreases n,
{
    if n == 0 {
        Seq::empty()
    } else {
        chroma_entries(docs, metas, ids, (n - 1) as nat) + chroma_entry(docs, metas, ids, n - 1)
    }
}

/// The text of a Chroma export: a heading and one block per document;
/// `None` when it has no documents.
pub open spec fn chroma_text(v: JsonSpec) -> Option<Seq<char>> {
    let (docs, metas, ids) = chroma_columns(v);
    if docs.len() == 0 {
        None
    } else {
        Some("# Chroma Database Export\n\n"@ + chroma_entries(docs, metas, ids, docs.len()))
    }
}

/// The error when an export has no documents.
pub open spec fn no_documents_error() -> Seq<char> {
    "No documents found in chroma export"@
}

fn first_list_exec<'a>(v: &'a JsonValue, key: &str) -> (r: Option<&'a Vec<JsonValue>>)
    ensures
        match r {
            Some(a) => first_list(v@, key@) == Some(json_views(a@)),
            None => first_list(v@, key@) is None,
        },
{
    match get(v, key) {
        Some(JsonValue::Array(outer)) => {
            proof { lemma_array_view(*outer); }
            if outer.len() > 0 {
                match &outer[0] {
                    JsonValue::Array(inner) => {
                        proof { lemma_array_view(*inner); }
                        Some(inner)
                    },
                    _ => None,
                }
            } else {
                None
            }
        },
        _ => None,
    }
}

fn id_texts_exec(items: &Vec<JsonValue>) -> (r: Vec<Vec<char>>)
    ensures
        views_of(r@) == id_texts(json_views(items@)),
{
    let ghost a = json_views(items@);
    let mut out: Vec<Vec<char>> = Vec::new();
    let mut i: usize = 0;
    assert(a.take(0) =~= Seq::<JsonSpec>::empty());
    assert(views_of(out@) =~= Seq::<Seq<char>>::empty());
    while i < items.len()
        invariant
            i <= items@.len(),
            a == json_views(items@),
            views_of(out@) == id_texts(a.take(i as int)),
        decreases items@.len() - i,
    {
        assert(a.take(i + 1).drop_last() =~= a.take(i as int));
        let ghost o0 = views_of(out@);
        match &items[i] {
            JsonValue::String(s) => {
                let sv = to_chars(s.as_str());
                let ghost svv = sv@;
                out.push(sv);
                assert(views_of(out@) =~= o0.push(svv));
            },
            JsonValue::Array(xs) => {
                proof { lemma_array_view(*xs); }
                let strs = string_items_exec(xs);
                let sep = to_chars(", ");
                let j = crate::text::join_chars(&strs, sep.as_slice());
                let ghost jv = j@;
                out.push(j);
                assert(views_of(out@) =~= o0.push(jv));
            },
            _ => {},
        }
        i += 1;
    }
    assert(a.take(items@.len() as int) =~= a);
    out
}

fn pretty_all(items: &Vec<JsonValue>) -> (r: Vec<Vec<char>>)
    ensures
        views_of(r@) == Seq::new(json_views(items@).len(), |i: int| pretty_text(json_views(items@)[i], 0)),
{
    let mut out: Vec<Vec<char>> = Vec::new();
    let mut i: usize = 0;
    while i < items.len()
        invariant
            i <= items@.len(),
            out@.len() == i,
            forall|k: int| 0 <= k < i ==> #[trigger] out@[k]@ == pretty_text(json_view(items@[k]), 0),
        decreases items@.len() - i,
    {
        let t = to_pretty_string(&items[i]);
        out.push(to_chars(t.as_str()));
        i += 1;
    }
    assert(views_of(out@) =~= Seq::new(json_views(items@).len(), |i: int| pretty_text(json_views(items@)[i], 0)));
    out
}

/// Extract text from a parsed Chroma export; see `chroma_text`. The error
/// names the missing documents.
pub fn extract_chroma_text(json: &JsonValue) -> (r: Result<String, String>)
    ensures
        match r {
            Ok(t) => chroma_text(json@) == Some(t@),
            Err(e) => chroma_text(json@) is None && e@ == no_documents_error(),
        },
{
    let docs: Vec<Vec<char>> = match first_list_exec(json, "documents") {
        Some(a) => string_items_exec(a),
        None => Vec::new(),
    };
    let metas: Vec<Vec<char>> = match first_list_exec(json, "metadatas") {
        Some(a) => pretty_all(a),
        None => Vec::new(),
    };
    let ids: Vec<Vec<char>> = match first_list_exec(json, "ids") {
        Some(a) => id_texts_exec(a),
        None => Vec::new(),
    };
    let ghost cols = chroma_columns(json@);
    assert(views_of(docs@) =~= cols.0);
    assert(views_of(metas@) =~= cols.1);
    assert(views_of(ids@) =~= cols.2);
    if docs.len() == 0 {
        return Err(crate::text::owned("No documents found in chroma export"));
    }
    let mut v = to_chars("# Chroma Database Export\n\n");
    let ghost head = v@;
    let mut i: usize = 0;
    while i < docs.len()
        invariant
            i <= docs@.len(),
            views_of(docs@) == cols.0,
            views_of(metas@) == cols.1,
            views_of(ids@) == cols.2,
            v@ == head + chroma_entries(cols.0, cols.1, cols.2, i as nat),
        decreases docs@.len() - i,
    {
        let ghost before = v@;
        let sep = to_chars("---\n");
        append_chars(&mut v, sep.as_slice());
        if i < ids.len() {
            let l = to_chars("ID: ");
            append_chars(&mut v, l.as_slice());
            append_chars(&mut v, ids[i].as_slice());
            let nl = to_chars("\n");
            append_chars(&mut v, nl.as_slice());
        }
        if i < metas.len() {
            let l = to_chars("Metadata: ");
            append_chars(&mut v, l.as_slice());
            append_chars(&mut v, metas[i].as_slice());
            let nl = to_chars("\n");
            append_chars(&mut v, nl.as_slice());
        }
        let c = to_chars("Content:\n");
        append_chars(&mut v, c.as_slice());
        append_chars(&mut v, docs[i].as_slice());
        let end = to_chars("\n\n");
        append_chars(&mut v, end.as_slice());
        assert(v@ =~= before + chroma_entry(cols.0, cols.1, cols.2, i as int));
        i += 1;
    }
    Ok(from_chars(v.as_slice()))
}

// ---------------------------------------------------------------------------
// PDF
// ---------------------------------------------------------------------------

/// What `String::from_utf8_lossy` gives for the given bytes.
pub uninterp spec fn lossy_decoding(bytes: Seq<u8>) -> Seq<char>;

/// `String::from_utf8_lossy`. Trusted: the result is the lossy decoding
/// named by `lossy_decoding`, a function of the bytes alone; valid UTF-8 is
/// decoded as is. How invalid sequences are replaced by U+FFFD is not
/// stated.
#[verifier::external_body]
fn utf8_lossy(bytes: &[u8]) -> (r: String)
    ensures
        r@ == lossy_decoding(bytes@),
        vstd::utf8::valid_utf8(bytes@) ==> r@ == vstd::utf8::decode_utf8(bytes@),
{
    String::from_utf8_lossy(bytes).into_owned()
}

/// Markers of embedded images in PDF content.
pub open spec fn pdf_image_markers() -> Seq<Seq<char>> {
    seq!["/Subtype /Image"@, "/XObject << /Image"@, "stream\nI I\n"@, "/DCTDecode"@, "/CCITTFaxDecode"@, "/JBIG2Decode"@]
}

/// PDF text with an image marker, or with inline image operators `BI`,
/// `ID` and `EI`.
pub open spec fn has_image_markers(text: Seq<char>) -> bool {
    (exists|i: int| 0 <= i < pdf_image_markers().len() && contains(text, #[trigger] pdf_image_markers()[i]))
        || (contains(text, "BI"@) && contains(text, "ID"@) && contains(text, "EI"@))
}

fn contains_str(s: &[char], p: &str) -> (r: bool)
    ensures
        r == contains(s@, p@),
{
    let pc = to_chars(p);
    crate::text::contains_chars(s, pc.as_slice())
}

fn has_image_markers_exec(text: &[char]) -> (r: bool)
    ensures
        r == has_image_markers(text@),
{
    let pats: [&str; 6] = ["/Subtype /Image", "/XObject << /Image", "stream\nI I\n", "/DCTDecode", "/CCITTFaxDecode", "/JBIG2Decode"];
    let ghost ps = pdf_image_markers();
    assert(ps.len() == 6);
    let mut i: usize = 0;
    while i < 6
        invariant
            i <= 6,
            ps == pdf_image_markers(),
            forall|k: int| 0 <= k < 6 ==> #[trigger] ps[k] == pats@[k]@,
            forall|k: int| 0 <= k < i ==> !contains(text@, #[trigger] ps[k]),
        decreases 6 - i,
    {
        if contains_str(text, pats[i]) {
            assert(contains(text@, ps[i as int]));
            return true;
        }
        i += 1;
    }
    contains_str(text, "BI") && contains_str(text, "ID") && contains_str(text, "EI")
}

/// Detect if PDF bytes contain embedded images; see `has_image_markers`.
pub fn detect_pdf_images(bytes: &[u8]) -> (r: bool)
    ensures
        r == has_image_markers(lossy_decoding(bytes@)),
{
    let text = utf8_lossy(bytes);
    let c = to_chars(text.as_str());
    has_image_markers_exec(c.as_slice())
}


/// `str::replace`: every non-overlapping occurrence of a non-empty `p`,
/// from the left, replaced by `r`.
pub open spec fn replace_all(s: Seq<char>, p: Seq<char>, r: Seq<char>) -> Seq<char> {
    join(split_str(s, p), r)
}

fn replace_all_exec(s: &[char], p: &str, r: &str) -> (out: Vec<char>)
    requires
        p@.len() > 0,
    ensures
        out@ == replace_all(s@, p@, r@),
{
    let pc = to_chars(p);
    let rc = to_chars(r);
    let pieces = crate::text::split_str_chars(s, pc.as_slice());
    crate::text::join_chars(&pieces, rc.as_slice())
}

/// A content line holding text operators.
pub open spec fn is_text_line(l: Seq<char>) -> bool {
    contains(l, "BT"@) || contains(l, " Tj"@) || contains(l, " TJ"@)
}

/// A text line without `BT`, `ET` and parentheses, with `\n` and `\t`
/// escapes turned into newline and tab.
pub open spec fn clean_pdf_line(l: Seq<char>) -> Seq<char> {
    replace_all(
        replace_all(
            replace_all(
                replace_all(replace_all(replace_all(l, "BT"@, ""@), "ET"@, ""@), "("@, ""@),
                ")"@,
                ""@,
            ),
            "\\n"@,
            "\n"@,
        ),
        "\\t"@,
        "\t"@,
    )
}

/// The cleaned text lines that are not blank, each ended by a newline.
pub open spec fn pdf_body(ls: Seq<Seq<char>>) -> Seq<char>
    decreases ls.len(),
{
    if ls.len() == 0 {
        Seq::empty()
    } else {
        let l = ls.last();
        pdf_body(ls.drop_last()) + if is_text_line(l) && trim(clean_pdf_line(l)).len() > 0 {
            clean_pdf_line(l) + "\n"@
        } else {
            Seq::empty()
        }
    }
}

/// The note added to the text of a PDF with images.
pub open spec fn pdf_image_note() -> Seq<char> {
    "\n\n---\nNOTE: This PDF contains embedded images/diagrams.\nThe images are not extracted as text, but you can see them in the original PDF.\nIf you need information from diagrams, please view the original PDF file.\n"@
}

/// Why no text came out of a PDF.
#[derive(Debug, Clone, Copy, PartialEq, Eq, Structural)]
pub enum PdfTextError {
    /// Only images, no text.
    ImagesOnly,
    /// Neither text nor images: probably scanned.
    NoText,
}

impl PdfTextError {
    /// The message of the error.
    pub fn message(&self) -> (r: &'static str)
        ensures
            r@ == pdf_error_message(*self),
    {
        match self {
            PdfTextError::ImagesOnly => "This PDF contains only images/diagrams with no extractable text. Please view the original PDF file for diagram content.",
            PdfTextError::NoText => "Could not extract text from PDF - file may be scanned/image-based",
        }
    }
}

/// The message of each error.
pub open spec fn pdf_error_message(e: PdfTextError) -> Seq<char> {
    match e {
        PdfTextError::ImagesOnly => "This PDF contains only images/diagrams with no extractable text. Please view the original PDF file for diagram content."@,
        PdfTextError::NoText => "Could not extract text from PDF - file may be scanned/image-based"@,
    }
}

/// The text of a PDF from its raw bytes: the text lines, with a note when
/// it also holds images; an error when no text remains.
pub open spec fn pdf_text(bytes: Seq<u8>) -> Result<Seq<char>, PdfTextError> {
    let text = lossy_decoding(bytes);
    let images = has_image_markers(text);
    let body = pdf_body(lines(text));
    let result = if images && trim(body).len() > 0 {
        body + pdf_image_note()
    } else {
        body
    };
    if trim(result).len() == 0 {
        Err(if images { PdfTextError::ImagesOnly } else { PdfTextError::NoText })
    } else {
        Ok(result)
    }
}

fn clean_pdf_line_exec(l: &[char]) -> (r: Vec<char>)
    ensures
        r@ == clean_pdf_line(l@),
{
    proof {
        reveal_strlit("BT");
        reveal_strlit("ET");
        reveal_strlit("(");
        reveal_strlit(")");
        reveal_strlit("\\n");
        reveal_strlit("\\t");
    }
    let a = replace_all_exec(l, "BT", "");
    let b = replace_all_exec(a.as_slice(), "ET", "");
    let c = replace_all_exec(b.as_slice(), "(", "");
    let d = replace_all_exec(c.as_slice(), ")", "");
    let e = replace_all_exec(d.as_slice(), "\\n", "\n");
    replace_all_exec(e.as_slice(), "\\t", "\t")
}

/// Extract text from the raw bytes of a PDF; see `pdf_text`.
pub fn pdf_text_from_bytes(bytes: &[u8]) -> (r: Result<String, PdfTextError>)
    ensures
        match r {
            Ok(t) => pdf_text(bytes@) == Ok::<Seq<char>, PdfTextError>(t@),
            Err(e) => pdf_text(bytes@) == Err::<Seq<char>, PdfTextError>(e),
        },
{
    let text = utf8_lossy(bytes);
    let c = to_chars(text.as_str());
    let images = has_image_markers_exec(c.as_slice());
    let ls = crate::text::lines_chars(c.as_slice());
    let ghost all = views_of(ls@);
    let mut body: Vec<char> = Vec::new();
    let mut i: usize = 0;
    assert(all.take(0) =~= Seq::<Seq<char>>::empty());
    while i < ls.len()
        invariant
            i <= ls@.len(),
            all == views_of(ls@),
            body@ == pdf_body(all.take(i as int)),
        decreases ls@.len() - i,
    {
        assert(all.take(i + 1).drop_last() =~= all.take(i as int));
        let l = ls[i].as_slice();
        if contains_str(l, "BT") || contains_str(l, " Tj") || contains_str(l, " TJ") {
            let cleaned = clean_pdf_line_exec(l);
            let t = trim_chars(cleaned.as_slice());
            if t.len() > 0 {
                append_chars(&mut body, cleaned.as_slice());
                body.push('\n');
                proof { reveal_strlit("\n"); }
            }
        }
        assert(body@ =~= pdf_body(all.take(i + 1)));
        i += 1;
    }
    assert(all.take(ls@.len() as int) =~= all);
    let tb = trim_chars(body.as_slice());
    if images && tb.len() > 0 {
        let note = to_chars("\n\n---\nNOTE: This PDF contains embedded images/diagrams.\nThe images are not extracted as text, but you can see them in the original PDF.\nIf you need information from diagrams, please view the original PDF file.\n");
        append_chars(&mut body, note.as_slice());
    }
    let tr = trim_chars(body.as_slice());
    if tr.len() == 0 {
        if images {
            return Err(PdfTextError::ImagesOnly);
        } else {
            return Err(PdfTextError::NoText);
        }
    }
    Ok(from_chars(body.as_slice()))
}


// ---------------------------------------------------------------------------
// Choosing an extractor
// ---------------------------------------------------------------------------

/// How a file's text is extracted, by its extension.
#[derive(Debug, Clone, Copy, PartialEq, Eq, Structural)]
pub enum TextSource {
    Pdf,
    Docx,
    Epub,
    /// JSON text, read as a Chroma export when it looks like one.
    Json,
    /// An image: only its metadata is described, no text is extracted.
    Image,
    /// Anything else is read as plain text.
    Plain,
}

/// The extractor for a (lowercased) extension.
pub open spec fn text_source_of(ext: Seq<char>) -> TextSource {
    if ext == "pdf"@ {
        TextSource::Pdf
    } else if ext == "docx"@ {
        TextSource::Docx
    } else if ext == "epub"@ {
        TextSource::Epub
    } else if ext == "json"@ || ext == "jsonl"@ {
        TextSource::Json
    } else if ext == "jpg"@ || ext == "jpeg"@ || ext == "png"@ || ext == "gif"@ || ext == "bmp"@
        || ext == "webp"@ || ext == "ico"@ || ext == "tiff"@ || ext == "svg"@ || ext == "svgz"@ {
        TextSource::Image
    } else {
        TextSource::Plain
    }
}

/// The extractor for a file's extension, ignoring case; see
/// `text_source_of`.
pub fn text_source(extension: &str) -> (r: TextSource)
    ensures
        r == text_source_of(crate::text::spec_to_lowercase(extension@)),
{
    let lower = crate::text::to_lowercase(extension);
    let e = lower.as_str();
    let eq = |a: &str, b: &str| -> (r: bool)
        ensures
            r == (a@ == b@),
        { crate::text::str_eq(a, b) };
    if eq(e, "pdf") {
        TextSource::Pdf
    } else if eq(e, "docx") {
        TextSource::Docx
    } else if eq(e, "epub") {
        TextSource::Epub
    } else if eq(e, "json") || eq(e, "jsonl") {
        TextSource::Json
    } else if eq(e, "jpg") || eq(e, "jpeg") || eq(e, "png") || eq(e, "gif") || eq(e, "bmp") || eq(
        e,
        "webp",
    ) || eq(e, "ico") || eq(e, "tiff") || eq(e, "svg") || eq(e, "svgz") {
        TextSource::Image
    } else {
        TextSource::Plain
    }
}

/// The error for an image handed to text extraction.
pub const IMAGE_TEXT_ERROR: &'static str = "Images should use extract_image_metadata(), not extract_text()";

/// The note stored with every image description.
pub const IMAGE_NOTE: &'static str = "This is an image file. Only metadata is stored, not the image content.";

/// An EPUB entry whose text is read: an XHTML or HTML page, or the package
/// file `content.opf`.
pub open spec fn epub_text_entry(name: Seq<char>) -> bool {
    crate::text::ends_with(name, ".xhtml"@) || crate::text::ends_with(name, ".html"@)
        || crate::text::ends_with(name, ".htm"@) || name == "content.opf"@
}

/// Whether an EPUB entry's text is read; see `epub_text_entry`.
pub fn is_epub_text_entry(name: &str) -> (r: bool)
    ensures
        r == epub_text_entry(name@),
{
    let n = to_chars(name);
    crate::text::ends_with_chars(n.as_slice(), to_chars(".xhtml").as_slice())
        || crate::text::ends_with_chars(n.as_slice(), to_chars(".html").as_slice())
        || crate::text::ends_with_chars(n.as_slice(), to_chars(".htm").as_slice())
        || crate::text::str_eq(name, "content.opf")
}

/// Whether a (lowercased) image extension is SVG, whose markup is described.
pub fn is_svg_extension(ext: &str) -> (r: bool)
    ensures
        r == (ext@ == "svg"@ || ext@ == "svgz"@),
{
    crate::text::str_eq(ext, "svg") || crate::text::str_eq(ext, "svgz")
}

} // verus!

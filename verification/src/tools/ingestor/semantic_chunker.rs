//! Semantic document chunking: splits documents at natural boundaries
//! (headings, paragraphs, sentences, functions) into a hierarchy tree.

use vstd::prelude::*;
use crate::models::{HierarchyLevel, MemoryCard, MemoryType};
use crate::json::{JsonValue, JsonSpec, json_view, json_views, member_views, json_get, json_str, json_text, member_get};
use crate::text::{
    slice_to_vec,
    to_chars, from_chars, lines, lines_chars, trim, trim_chars, starts_with, starts_with_chars,
    starts_with_char, has_char, has_char_exec, join, join_chars, views_of, decimal, append_chars,
    append_decimal, lower_ascii, is_ascii_text,
};

verus! {

/// The mathematical form of a hierarchy node.
#[verifier::ext_equal]
pub struct NodeSpec {
    pub content: Seq<char>,
    pub level: HierarchyLevel,
    pub order_index: nat,
    pub path: Seq<char>,
    pub children: Seq<NodeSpec>,
}

/// A node without children.
pub open spec fn leaf(content: Seq<char>, level: HierarchyLevel, order_index: nat, path: Seq<char>) -> NodeSpec {
    NodeSpec { content, level, order_index, path, children: Seq::empty() }
}

/// A node in the document hierarchy tree.
#[derive(Debug)]
pub struct HierarchyNode {
    pub content: String,
    pub level: HierarchyLevel,
    pub order_index: usize,
    pub path: String,
    pub children: Vec<HierarchyNode>,
}

/// The mathematical form of a node and everything below it.
pub open spec fn node_view(n: HierarchyNode) -> NodeSpec
    decreases n,
{
    NodeSpec {
        content: n.content@,
        level: n.level,
        order_index: n.order_index as nat,
        path: n.path@,
        children: Seq::new(
            n.children@.len(),
            |i: int|
                if 0 <= i < n.children@.len() {
                    node_view(n.children@[i])
                } else {
                    leaf(Seq::empty(), HierarchyLevel::Document, 0, Seq::empty())
                },
        ),
    }
}

/// The mathematical forms of a sequence of nodes.
pub open spec fn nodes_view(v: Seq<HierarchyNode>) -> Seq<NodeSpec> {
    Seq::new(v.len(), |i: int| node_view(v[i]))
}

impl View for HierarchyNode {
    type V = NodeSpec;

    open spec fn view(&self) -> NodeSpec {
        node_view(*self)
    }
}

proof fn lemma_children_view(n: HierarchyNode)
    ensures
        node_view(n).children == nodes_view(n.children@),
{
    assert(node_view(n).children =~= nodes_view(n.children@));
}

impl HierarchyNode {
    /// Create a new node without children.
    pub fn new(content: String, level: HierarchyLevel, order_index: usize, path: String) -> (r: Self)
        ensures
            r@ == leaf(content@, level, order_index as nat, path@),
    {
        let r = HierarchyNode { content, level, order_index, path, children: Vec::new() };
        assert(node_view(r).children =~= Seq::<NodeSpec>::empty());
        assert(r@ =~= leaf(r.content@, level, order_index as nat, r.path@));
        r
    }
}

/// A childless node built from character vectors.
fn make_leaf(content: &[char], level: HierarchyLevel, order_index: usize, path: &[char]) -> (r: HierarchyNode)
    ensures
        r@ == leaf(content@, level, order_index as nat, path@),
{
    HierarchyNode::new(from_chars(content), level, order_index, from_chars(path))
}

/// Appends a child to a node.
fn push_child(n: &mut HierarchyNode, c: HierarchyNode)
    ensures
        final(n)@ == (NodeSpec { children: old(n)@.children.push(c@), ..old(n)@ }),
{
    proof { lemma_children_view(*n); }
    n.children.push(c);
    proof {
        lemma_children_view(*n);
        assert(nodes_view(n.children@) =~= old(n)@.children.push(c@));
    }
}

/// Appends a node to a vector of nodes.
fn push_node(v: &mut Vec<HierarchyNode>, c: HierarchyNode)
    ensures
        nodes_view(final(v)@) == nodes_view(old(v)@).push(c@),
{
    v.push(c);
    assert(nodes_view(v@) =~= nodes_view(old(v)@).push(c@));
}

// ---------------------------------------------------------------------------
// Paths and titles
// ---------------------------------------------------------------------------

/// Title of a document root.
pub open spec fn document_title(file_name: Seq<char>) -> Seq<char> {
    "Document: "@ + file_name
}

/// A document root with the given children.
pub open spec fn document_root(file_name: Seq<char>, children: Seq<NodeSpec>) -> NodeSpec {
    NodeSpec {
        content: document_title(file_name),
        level: HierarchyLevel::Document,
        order_index: 0,
        path: file_name,
        children,
    }
}

/// `{file}/section[{s}]`.
pub open spec fn section_path(file_name: Seq<char>, s: nat) -> Seq<char> {
    file_name + "/section["@ + decimal(s) + "]"@
}

/// `{file}/section[{s}]/paragraph[{p}]`.
pub open spec fn section_paragraph_path(file_name: Seq<char>, s: nat, p: nat) -> Seq<char> {
    section_path(file_name, s) + "/paragraph["@ + decimal(p) + "]"@
}

/// `{file}/section[{s}]/code_block[{p}]`.
pub open spec fn code_block_path(file_name: Seq<char>, s: nat, p: nat) -> Seq<char> {
    section_path(file_name, s) + "/code_block["@ + decimal(p) + "]"@
}

/// `{prefix}{name}[{k}]`, the shape of every indexed path segment.
fn indexed(prefix: &[char], name: &str, k: usize) -> (r: Vec<char>)
    ensures
        r@ == prefix@ + name@ + decimal(k as nat) + "]"@,
{
    let mut v: Vec<char> = Vec::new();
    append_chars(&mut v, prefix);
    let n = to_chars(name);
    append_chars(&mut v, n.as_slice());
    append_decimal(&mut v, k as u64);
    let close = to_chars("]");
    append_chars(&mut v, close.as_slice());
    v
}

fn document_title_exec(file_name: &[char]) -> (r: Vec<char>)
    ensures
        r@ == document_title(file_name@),
{
    let mut v = to_chars("Document: ");
    append_chars(&mut v, file_name);
    v
}

fn document_root_exec(file_name: &[char]) -> (r: HierarchyNode)
    ensures
        r@ == document_root(file_name@, Seq::empty()),
{
    let t = document_title_exec(file_name);
    make_leaf(t.as_slice(), HierarchyLevel::Document, 0, file_name)
}

// ---------------------------------------------------------------------------
// Markdown
// ---------------------------------------------------------------------------

/// The state of the line-by-line Markdown reader.
#[verifier::ext_equal]
pub struct MdState {
    /// Children of the root collected so far.
    pub children: Seq<NodeSpec>,
    /// The open section, if any.
    pub section: Option<NodeSpec>,
    /// Trimmed lines of the open paragraph.
    pub para: Seq<Seq<char>>,
    /// Index of the next section.
    pub section_index: nat,
    /// Index of the next paragraph within the open section.
    pub para_index: nat,
    /// Inside a fenced code block.
    pub in_code: bool,
    /// Lines of the open code block.
    pub code: Seq<Seq<char>>,
}

pub open spec fn md_init() -> MdState {
    MdState {
        children: Seq::empty(),
        section: None,
        para: Seq::empty(),
        section_index: 0,
        para_index: 0,
        in_code: false,
        code: Seq::empty(),
    }
}

/// Order index of the open section, 0 without one.
pub open spec fn open_section_index(st: MdState) -> nat {
    match st.section {
        Some(s) => s.order_index,
        None => 0,
    }
}

/// Adds a node to the open section, or to the root without one.
pub open spec fn md_add(st: MdState, n: NodeSpec) -> MdState {
    match st.section {
        Some(s) => MdState { section: Some(NodeSpec { children: s.children.push(n), ..s }), ..st },
        None => MdState { children: st.children.push(n), ..st },
    }
}

/// Text of the open paragraph: its lines joined by spaces, trimmed.
pub open spec fn md_para_text(st: MdState) -> Seq<char> {
    trim(join(st.para, " "@))
}

/// Ends the open paragraph: a non-empty one becomes a paragraph node of the
/// open section (or of the root).
pub open spec fn md_flush(file_name: Seq<char>, st: MdState) -> MdState {
    if st.para.len() > 0 {
        let text = md_para_text(st);
        let st1 = if text.len() > 0 {
            let node = leaf(
                text,
                HierarchyLevel::Paragraph,
                st.para_index,
                section_paragraph_path(file_name, open_section_index(st), st.para_index),
            );
            MdState { para_index: st.para_index + 1, ..md_add(st, node) }
        } else {
            st
        };
        MdState { para: Seq::empty(), ..st1 }
    } else {
        st
    }
}

/// Leading `#` characters removed.
pub open spec fn strip_hashes(s: Seq<char>) -> Seq<char>
    decreases s.len(),
{
    if s.len() > 0 && s[0] == '#' {
        strip_hashes(s.drop_first())
    } else {
        s
    }
}

/// A heading line: starts with `#` and holds a space.
pub open spec fn is_heading(t: Seq<char>) -> bool {
    starts_with_char(t, '#') && has_char(t, ' ')
}

/// Number of leading `#` characters.
pub open spec fn hash_count(s: Seq<char>) -> nat
    decreases s.len(),
{
    if s.len() > 0 && s[0] == '#' {
        1 + hash_count(s.drop_first())
    } else {
        0
    }
}

/// The level of a heading: one or two `#` make a section, more a
/// subsection.
pub open spec fn heading_level(t: Seq<char>) -> HierarchyLevel {
    if hash_count(t) <= 2 {
        HierarchyLevel::Section
    } else {
        HierarchyLevel::Subsection
    }
}

/// A heading opens a new section: a pending paragraph is closed into the
/// open section, the open section goes to the root, and the heading's text
/// becomes the new open section.
pub open spec fn md_heading(file_name: Seq<char>, st: MdState, t: Seq<char>) -> MdState {
    let st1 = md_flush(file_name, st);
    MdState {
        children: match st1.section {
            Some(s) => st1.children.push(s),
            None => st1.children,
        },
        section: Some(
            leaf(
                trim(strip_hashes(t)),
                heading_level(t),
                st1.section_index,
                section_path(file_name, st1.section_index),
            ),
        ),
        para: Seq::empty(),
        section_index: st1.section_index + 1,
        para_index: 0,
        ..st1
    }
}

/// A fence line opens or closes a code block; a closed non-empty block
/// becomes a paragraph-level node.
pub open spec fn md_fence(file_name: Seq<char>, st: MdState) -> MdState {
    if !st.in_code {
        MdState { in_code: true, code: Seq::empty(), ..st }
    } else {
        let st1 = if st.code.len() > 0 {
            let node = leaf(
                join(st.code, "\n"@),
                HierarchyLevel::Paragraph,
                st.para_index,
                code_block_path(file_name, open_section_index(st), st.para_index),
            );
            MdState { para_index: st.para_index + 1, ..md_add(st, node) }
        } else {
            st
        };
        MdState { in_code: false, code: Seq::empty(), ..st1 }
    }
}

/// One line of Markdown.
pub open spec fn md_step(file_name: Seq<char>, st: MdState, line: Seq<char>) -> MdState {
    let t = trim(line);
    if starts_with(t, "```"@) {
        md_fence(file_name, st)
    } else if st.in_code {
        MdState { code: st.code.push(line), ..st }
    } else if is_heading(t) {
        md_heading(file_name, st, t)
    } else if t.len() == 0 {
        md_flush(file_name, st)
    } else {
        MdState { para: st.para.push(t), ..st }
    }
}

/// The reader's state after the given lines.
pub open spec fn md_run(file_name: Seq<char>, ls: Seq<Seq<char>>) -> MdState
    decreases ls.len(),
{
    if ls.len() == 0 {
        md_init()
    } else {
        md_step(file_name, md_run(file_name, ls.drop_last()), ls.last())
    }
}

/// The tree of a Markdown document: the pending paragraph and the open
/// section are closed at the end.
pub open spec fn markdown_tree(content: Seq<char>, file_name: Seq<char>) -> NodeSpec {
    let st = md_flush(file_name, md_run(file_name, lines(content)));
    let children = match st.section {
        Some(s) => st.children.push(s),
        None => st.children,
    };
    document_root(file_name, children)
}


/// Leading `#` characters removed, on a character slice, and how many
/// there were.
fn strip_hashes_exec(s: &[char]) -> (r: (Vec<char>, usize))
    ensures
        r.0@ == strip_hashes(s@),
        r.1 == hash_count(s@),
{
    let mut i: usize = 0;
    assert(s@.skip(0) =~= s@);
    while i < s.len() && s[i] == '#'
        invariant
            i <= s.len(),
            strip_hashes(s@) == strip_hashes(s@.skip(i as int)),
            hash_count(s@) == i + hash_count(s@.skip(i as int)),
        decreases s.len() - i,
    {
        assert(s@.skip(i as int).drop_first() =~= s@.skip(i + 1));
        i += 1;
    }
    assert(s@.skip(i as int) =~= s@.subrange(i as int, s@.len() as int));
    (slice_to_vec(s, i, s.len()), i)
}

fn section_path_exec(file_name: &[char], s: usize) -> (r: Vec<char>)
    ensures
        r@ == section_path(file_name@, s as nat),
{
    indexed(file_name, "/section[", s)
}

fn section_paragraph_path_exec(file_name: &[char], s: usize, p: usize) -> (r: Vec<char>)
    ensures
        r@ == section_paragraph_path(file_name@, s as nat, p as nat),
{
    let sp = section_path_exec(file_name, s);
    indexed(sp.as_slice(), "/paragraph[", p)
}

fn code_block_path_exec(file_name: &[char], s: usize, p: usize) -> (r: Vec<char>)
    ensures
        r@ == code_block_path(file_name@, s as nat, p as nat),
{
    let sp = section_path_exec(file_name, s);
    indexed(sp.as_slice(), "/code_block[", p)
}

/// The Markdown reader's state, executable form of `MdState`.
struct MdBuilder {
    children: Vec<HierarchyNode>,
    section: Option<HierarchyNode>,
    para: Vec<Vec<char>>,
    section_index: usize,
    para_index: usize,
    in_code: bool,
    code: Vec<Vec<char>>,
}

impl MdBuilder {
    spec fn state(&self) -> MdState {
        MdState {
            children: nodes_view(self.children@),
            section: match self.section {
                Some(n) => Some(n@),
                None => None,
            },
            para: views_of(self.para@),
            section_index: self.section_index as nat,
            para_index: self.para_index as nat,
            in_code: self.in_code,
            code: views_of(self.code@),
        }
    }

    fn new() -> (r: Self)
        ensures
            r.state() == md_init(),
    {
        let r = MdBuilder {
            children: Vec::new(),
            section: None,
            para: Vec::new(),
            section_index: 0,
            para_index: 0,
            in_code: false,
            code: Vec::new(),
        };
        assert(r.state() =~= md_init());
        r
    }

    fn open_index(&self) -> (r: usize)
        ensures
            r == open_section_index(self.state()),
    {
        match &self.section {
            Some(n) => n.order_index,
            None => 0,
        }
    }

    fn add(&mut self, n: HierarchyNode)
        ensures
            final(self).state() == md_add(old(self).state(), n@),
    {
        let mut sec: Option<HierarchyNode> = None;
        std::mem::swap(&mut sec, &mut self.section);
        match sec {
            Some(mut s) => {
                push_child(&mut s, n);
                self.section = Some(s);
            },
            None => {
                push_node(&mut self.children, n);
            },
        }
        assert(self.state() =~= md_add(old(self).state(), n@));
    }

    /// The open paragraph's text.
    fn para_text(&self) -> (r: Vec<char>)
        ensures
            r@ == md_para_text(self.state()),
    {
        let sp = to_chars(" ");
        let j = join_chars(&self.para, sp.as_slice());
        trim_chars(j.as_slice())
    }

    fn flush(&mut self, file_name: &[char])
        ensures
            old(self).para_index < usize::MAX ==> final(self).state() == md_flush(
                file_name@,
                old(self).state(),
            ),
            final(self).state().children == md_flush(file_name@, old(self).state()).children,
            final(self).state().section == md_flush(file_name@, old(self).state()).section,
    {
        if self.para.len() > 0 {
            let text = self.para_text();
            if text.len() > 0 {
                let path = section_paragraph_path_exec(file_name, self.open_index(), self.para_index);
                let node = make_leaf(text.as_slice(), HierarchyLevel::Paragraph, self.para_index, path.as_slice());
                self.add(node);
                if self.para_index < usize::MAX {
                    self.para_index += 1;
                }
            }
            self.para = Vec::new();
            assert(views_of(self.para@) =~= Seq::<Seq<char>>::empty());
        }
        proof {
            if old(self).para_index < usize::MAX {
                assert(self.state() =~= md_flush(file_name@, old(self).state()));
            }
        }
    }

    fn heading(&mut self, file_name: &[char], t: &[char])
        requires
            old(self).section_index < usize::MAX,
            old(self).para_index < usize::MAX,
        ensures
            final(self).state() == md_heading(file_name@, old(self).state(), t@),
    {
        let ghost st = self.state();
        self.flush(file_name);
        let ghost st1 = self.state();
        let mut sec: Option<HierarchyNode> = None;
        std::mem::swap(&mut sec, &mut self.section);
        match sec {
            Some(s) => push_node(&mut self.children, s),
            None => {},
        }
        let (h, n) = strip_hashes_exec(t);
        let ht = trim_chars(h.as_slice());
        let level = if n <= 2 { HierarchyLevel::Section } else { HierarchyLevel::Subsection };
        let sp = section_path_exec(file_name, self.section_index);
        self.section = Some(make_leaf(ht.as_slice(), level, self.section_index, sp.as_slice()));
        self.para = Vec::new();
        self.section_index = self.section_index + 1;
        self.para_index = 0;
        assert(views_of(self.para@) =~= Seq::<Seq<char>>::empty());
        assert(self.state() =~= md_heading(file_name@, st, t@));
    }

    fn fence(&mut self, file_name: &[char])
        requires
            old(self).para_index < usize::MAX,
        ensures
            final(self).state() == md_fence(file_name@, old(self).state()),
    {
        if !self.in_code {
            self.in_code = true;
            self.code = Vec::new();
            assert(views_of(self.code@) =~= Seq::<Seq<char>>::empty());
        } else {
            if self.code.len() > 0 {
                let nl = to_chars("\n");
                let text = join_chars(&self.code, nl.as_slice());
                let path = code_block_path_exec(file_name, self.open_index(), self.para_index);
                let node = make_leaf(text.as_slice(), HierarchyLevel::Paragraph, self.para_index, path.as_slice());
                self.add(node);
                self.para_index = self.para_index + 1;
            }
            self.in_code = false;
            self.code = Vec::new();
            assert(views_of(self.code@) =~= Seq::<Seq<char>>::empty());
        }
        assert(self.state() =~= md_fence(file_name@, old(self).state()));
    }

    fn step(&mut self, file_name: &[char], line: &[char])
        requires
            old(self).section_index < usize::MAX,
            old(self).para_index < usize::MAX,
        ensures
            final(self).state() == md_step(file_name@, old(self).state(), line@),
            final(self).section_index <= old(self).section_index + 1,
            final(self).para_index <= old(self).para_index + 1,
    {
        let t = trim_chars(line);
        let fence = to_chars("```");
        if starts_with_chars(t.as_slice(), fence.as_slice()) {
            self.fence(file_name);
        } else if self.in_code {
            let l = slice_to_vec(line, 0, line.len());
            assert(l@ =~= line@);
            self.code.push(l);
            assert(views_of(self.code@) =~= views_of(old(self).code@).push(line@));
            assert(self.state() =~= md_step(file_name@, old(self).state(), line@));
        } else if t.len() > 0 && t[0] == '#' && has_char_exec(t.as_slice(), ' ') {
            self.heading(file_name, t.as_slice());
        } else if t.len() == 0 {
            self.flush(file_name);
        } else {
            let ghost tv = t@;
            self.para.push(t);
            assert(views_of(self.para@) =~= views_of(old(self).para@).push(tv));
            assert(self.state() =~= md_step(file_name@, old(self).state(), line@));
        }
    }
}

/// Parse a Markdown document into a hierarchy: headings open sections,
/// blank lines end paragraphs, fenced blocks become their own nodes.
pub fn parse_markdown(content: &str, file_name: &str) -> (r: HierarchyNode)
    ensures
        r@ == markdown_tree(content@, file_name@),
{
    let file = to_chars(file_name);
    let c = to_chars(content);
    let ls = lines_chars(c.as_slice());
    let ghost all = views_of(ls@);
    let mut b = MdBuilder::new();
    let mut i: usize = 0;
    assert(all.take(0) =~= Seq::<Seq<char>>::empty());
    while i < ls.len()
        invariant
            i <= ls@.len(),
            all == views_of(ls@),
            b.state() == md_run(file@, all.take(i as int)),
            b.section_index <= i,
            b.para_index <= i,
        decreases ls@.len() - i,
    {
        proof {
            assert(all.take(i + 1).drop_last() =~= all.take(i as int));
            assert(all.take(i + 1).last() == ls@[i as int]@);
        }
        b.step(file.as_slice(), ls[i].as_slice());
        i += 1;
    }
    assert(all.take(ls@.len() as int) =~= all);
    b.flush(file.as_slice());
    let mut root = document_root_exec(file.as_slice());
    let mut children = b.children;
    match b.section {
        Some(s) => push_node(&mut children, s),
        None => {},
    }
    proof { lemma_children_view(root); }
    root.children = children;
    proof {
        lemma_children_view(root);
        assert(root@ =~= markdown_tree(content@, file_name@));
    }
    root
}


// ---------------------------------------------------------------------------
// Sentences
// ---------------------------------------------------------------------------

/// `.`, `!` or `?`.
pub open spec fn is_sentence_end(c: char) -> bool {
    c == '.' || c == '!' || c == '?'
}

/// Whitespace that confirms the end of a sentence.
pub open spec fn is_break_after(c: char) -> bool {
    c == ' ' || c == '\n' || c == '\t'
}

/// A closing quote or bracket right after a sentence end.
pub open spec fn is_closer(c: char) -> bool {
    c == '"' || c == '\'' || c == ')' || c == ']'
}

/// Number of leading spaces.
pub open spec fn lead_spaces(s: Seq<char>) -> nat
    decreases s.len(),
{
    if s.len() > 0 && s[0] == ' ' {
        1 + lead_spaces(s.drop_first())
    } else {
        0
    }
}

pub proof fn lemma_lead_spaces_bound(s: Seq<char>)
    ensures
        lead_spaces(s) <= s.len(),
    decreases s.len(),
{
    if s.len() > 0 && s[0] == ' ' {
        lemma_lead_spaces_bound(s.drop_first());
    }
}

/// Reading `rest` with the sentence `cur` open and `acc` finished: a
/// sentence ends at `.`, `!` or `?` followed by whitespace (the spaces that
/// follow are taken into it) or by a closing quote or bracket; each finished
/// sentence is trimmed, and a non-blank remainder is the last one.
pub open spec fn sentence_run(rest: Seq<char>, cur: Seq<char>, acc: Seq<Seq<char>>) -> Seq<Seq<char>>
    decreases rest.len(),
{
    if rest.len() == 0 {
        if trim(cur).len() > 0 {
            acc.push(trim(cur))
        } else {
            acc
        }
    } else {
        let c = rest[0];
        let cur1 = cur.push(c);
        let r = rest.drop_first();
        if is_sentence_end(c) && r.len() > 0 && is_break_after(r[0]) {
            proof {
                lemma_lead_spaces_bound(r);
            }
            let k = lead_spaces(r);
            sentence_run(r.skip(k as int), Seq::empty(), acc.push(trim(cur1 + r.take(k as int))))
        } else if is_sentence_end(c) && r.len() > 0 && is_closer(r[0]) {
            sentence_run(r, Seq::empty(), acc.push(trim(cur1)))
        } else {
            sentence_run(r, cur1, acc)
        }
    }
}

/// A sentence is kept when it is longer than 10 bytes or holds a space.
pub open spec fn kept_sentence() -> spec_fn(Seq<char>) -> bool {
    |s: Seq<char>| vstd::utf8::encode_utf8(s).len() > 10 || has_char(s, ' ')
}

/// The sentences of a text.
pub open spec fn sentences(text: Seq<char>) -> Seq<Seq<char>> {
    sentence_run(text, Seq::empty(), Seq::empty()).filter(kept_sentence())
}

/// Whether a sentence is long enough to keep.
fn keep_sentence(s: &[char]) -> (r: bool)
    ensures
        r == kept_sentence()(s@),
{
    let st = from_chars(s);
    let n = st.as_str().as_bytes().len();
    n > 10 || has_char_exec(s, ' ')
}

/// The sentences of a character slice; see `sentences`.
fn sentences_of(text: &[char]) -> (r: Vec<Vec<char>>)
    ensures
        views_of(r@) == sentences(text@),
{
    let mut acc: Vec<Vec<char>> = Vec::new();
    let mut cur: Vec<char> = Vec::new();
    let mut i: usize = 0;
    assert(text@.skip(0) =~= text@);
    assert(views_of(acc@) =~= Seq::<Seq<char>>::empty());
    while i < text.len()
        invariant
            i <= text@.len(),
            sentence_run(text@, Seq::empty(), Seq::empty()) == sentence_run(
                text@.skip(i as int),
                cur@,
                views_of(acc@),
            ),
        decreases text@.len() - i,
    {
        let ghost rest = text@.skip(i as int);
        let ghost acc0 = views_of(acc@);
        let ch = text[i];
        cur.push(ch);
        i += 1;
        assert(rest.drop_first() =~= text@.skip(i as int));
        let ends = ch == '.' || ch == '!' || ch == '?';
        if ends && i < text.len() && (text[i] == ' ' || text[i] == '\n' || text[i] == '\t') {
            let ghost r = text@.skip(i as int);
            let ghost i0 = i;
            let ghost cur1 = cur@;
            assert(r.take(0) =~= Seq::<char>::empty());
            assert(cur@ =~= cur1 + r.take(0));
            while i < text.len() && text[i] == ' '
                invariant
                    i0 <= i <= text@.len(),
                    r == text@.skip(i0 as int),
                    cur@ == cur1 + r.take(i - i0),
                    lead_spaces(r) == (i - i0) + lead_spaces(text@.skip(i as int)),
                decreases text@.len() - i,
            {
                assert(text@.skip(i as int).drop_first() =~= text@.skip(i + 1));
                cur.push(' ');
                i += 1;
                assert(r.take(i - i0) =~= r.take(i - 1 - i0).push(' '));
            }
            assert(r.skip(lead_spaces(r) as int) =~= text@.skip(i as int));
            let t = trim_chars(cur.as_slice());
            let ghost tv = t@;
            acc.push(t);
            assert(views_of(acc@) =~= acc0.push(tv));
            cur = Vec::new();
            assert(cur@ =~= Seq::<char>::empty());
        } else if ends && i < text.len() && (text[i] == '"' || text[i] == '\'' || text[i] == ')' || text[i] == ']') {
            let t = trim_chars(cur.as_slice());
            let ghost tv = t@;
            acc.push(t);
            assert(views_of(acc@) =~= acc0.push(tv));
            cur = Vec::new();
            assert(cur@ =~= Seq::<char>::empty());
        }
    }
    let t = trim_chars(cur.as_slice());
    if t.len() > 0 {
        let ghost acc0 = views_of(acc@);
        let ghost tv = t@;
        acc.push(t);
        assert(views_of(acc@) =~= acc0.push(tv));
    }
    assert(text@.skip(i as int) =~= Seq::<char>::empty());
    let ghost all = views_of(acc@);
    assert(all == sentence_run(text@, Seq::empty(), Seq::empty()));
    let mut out: Vec<Vec<char>> = Vec::new();
    let mut k: usize = 0;
    assert(all.take(0).filter(kept_sentence()) =~= Seq::<Seq<char>>::empty());
    while k < acc.len()
        invariant
            k <= acc@.len(),
            all == views_of(acc@),
            views_of(out@) == all.take(k as int).filter(kept_sentence()),
        decreases acc@.len() - k,
    {
        proof {
            assert(all.take(k + 1).drop_last() =~= all.take(k as int));
            reveal_with_fuel(Seq::filter, 1);
        }
        if keep_sentence(acc[k].as_slice()) {
            let ghost out0 = views_of(out@);
            let v = slice_to_vec(acc[k].as_slice(), 0, acc[k].len());
            assert(v@ =~= acc@[k as int]@);
            out.push(v);
            assert(views_of(out@) =~= out0.push(acc@[k as int]@));
        }
        k += 1;
    }
    assert(all.take(acc@.len() as int) =~= all);
    out
}

/// Split text into sentences; see `sentences`.
pub fn split_sentences(text: &str) -> (r: Vec<String>)
    ensures
        crate::text::string_views(r@) == sentences(text@),
{
    let c = to_chars(text);
    let s = sentences_of(c.as_slice());
    crate::text::strings_from(&s)
}


// ---------------------------------------------------------------------------
// Plain text
// ---------------------------------------------------------------------------

/// The trimmed pieces that are not empty, in order.
pub open spec fn nonempty_trimmed(ps: Seq<Seq<char>>) -> Seq<Seq<char>>
    decreases ps.len(),
{
    if ps.len() == 0 {
        Seq::empty()
    } else {
        let prev = nonempty_trimmed(ps.drop_last());
        let t = trim(ps.last());
        if t.len() > 0 {
            prev.push(t)
        } else {
            prev
        }
    }
}

/// Paragraphs of plain text: the pieces between blank lines (`"\n\n"`),
/// trimmed, empty ones dropped.
pub open spec fn paragraphs(content: Seq<char>) -> Seq<Seq<char>> {
    nonempty_trimmed(crate::text::split_str(content, "\n\n"@))
}

/// `{file}/paragraph[{k}]`.
pub open spec fn paragraph_path(file_name: Seq<char>, k: nat) -> Seq<char> {
    file_name + "/paragraph["@ + decimal(k) + "]"@
}

/// Sentence nodes under the paragraph at `path`.
pub open spec fn sentence_nodes(path: Seq<char>, ss: Seq<Seq<char>>) -> Seq<NodeSpec> {
    Seq::new(
        ss.len(),
        |j: int|
            leaf(ss[j], HierarchyLevel::Sentence, j as nat, path + "/sentence["@ + decimal(j as nat) + "]"@),
    )
}

/// The nodes for the paragraph `p` at index `k`: a short paragraph (under
/// 500 bytes) is one node; a long one is an empty node holding its
/// sentences, left out when it has none.
pub open spec fn paragraph_nodes(file_name: Seq<char>, p: Seq<char>, k: nat) -> Seq<NodeSpec> {
    let path = paragraph_path(file_name, k);
    if vstd::utf8::encode_utf8(p).len() < 500 {
        seq![leaf(p, HierarchyLevel::Paragraph, k, path)]
    } else {
        let ss = sentences(p);
        if ss.len() == 0 {
            Seq::empty()
        } else {
            seq![NodeSpec { content: Seq::empty(), level: HierarchyLevel::Paragraph, order_index: k, path, children: sentence_nodes(path, ss) }]
        }
    }
}

/// The nodes of the given paragraphs, numbered from 0.
pub open spec fn plain_nodes(file_name: Seq<char>, ps: Seq<Seq<char>>) -> Seq<NodeSpec>
    decreases ps.len(),
{
    if ps.len() == 0 {
        Seq::empty()
    } else {
        plain_nodes(file_name, ps.drop_last()) + paragraph_nodes(
            file_name,
            ps.last(),
            (ps.len() - 1) as nat,
        )
    }
}

/// A paragraph of 500 bytes or more with sentences is one node whose
/// children are its sentences in text order: child `j` holds sentence `j`
/// of `split_sentences`, has order index `j`, and sits at
/// `{file}/paragraph[{k}]/sentence[{j}]`.
pub proof fn lemma_long_paragraph_sentences_in_order(file_name: Seq<char>, p: Seq<char>, k: nat, j: int)
    requires
        vstd::utf8::encode_utf8(p).len() >= 500,
        0 <= j < sentences(p).len(),
    ensures
        paragraph_nodes(file_name, p, k).len() == 1,
        paragraph_nodes(file_name, p, k)[0].children.len() == sentences(p).len(),
        paragraph_nodes(file_name, p, k)[0].children[j].content == sentences(p)[j],
        paragraph_nodes(file_name, p, k)[0].children[j].order_index == j,
        paragraph_nodes(file_name, p, k)[0].children[j].path == file_name + "/paragraph["@ + decimal(k)
            + "]"@ + "/sentence["@ + decimal(j as nat) + "]"@,
{
}

/// A plain-text document of one paragraph of 500 bytes or more has one
/// child, the paragraph, whose children are its sentences in text order.
pub proof fn lemma_plain_tree_sentences_in_order(content: Seq<char>, file_name: Seq<char>, j: int)
    requires
        paragraphs(content).len() == 1,
        vstd::utf8::encode_utf8(paragraphs(content)[0]).len() >= 500,
        0 <= j < sentences(paragraphs(content)[0]).len(),
    ensures
        plain_tree(content, file_name).children.len() == 1,
        plain_tree(content, file_name).children[0].children[j].content == sentences(
            paragraphs(content)[0],
        )[j],
        plain_tree(content, file_name).children[0].children[j].order_index == j,
{
    let ps = paragraphs(content);
    assert(ps.drop_last().len() == 0);
    assert(plain_nodes(file_name, ps.drop_last()) =~= Seq::<NodeSpec>::empty());
    assert(ps.last() == ps[0]);
    lemma_long_paragraph_sentences_in_order(file_name, ps[0], 0, j);
    assert(plain_nodes(file_name, ps) =~= paragraph_nodes(file_name, ps[0], 0));
}

/// The tree of a plain-text document.
pub open spec fn plain_tree(content: Seq<char>, file_name: Seq<char>) -> NodeSpec {
    document_root(file_name, plain_nodes(file_name, paragraphs(content)))
}

/// The nodes of one paragraph; see `paragraph_nodes`.
fn paragraph_nodes_exec(file_name: &[char], p: &[char], k: usize) -> (r: Vec<HierarchyNode>)
    ensures
        nodes_view(r@) == paragraph_nodes(file_name@, p@, k as nat),
{
    let path = indexed(file_name, "/paragraph[", k);
    let mut out: Vec<HierarchyNode> = Vec::new();
    let st = from_chars(p);
    if st.as_str().as_bytes().len() < 500 {
        let node = make_leaf(p, HierarchyLevel::Paragraph, k, path.as_slice());
        push_node(&mut out, node);
        assert(nodes_view(out@) =~= paragraph_nodes(file_name@, p@, k as nat));
        return out;
    }
    let ss = sentences_of(p);
    let mut kids: Vec<HierarchyNode> = Vec::new();
    let mut j: usize = 0;
    while j < ss.len()
        invariant
            j <= ss@.len(),
            path@ == paragraph_path(file_name@, k as nat),
            nodes_view(kids@) == sentence_nodes(path@, views_of(ss@)).take(j as int),
        decreases ss@.len() - j,
    {
        let sp = indexed(path.as_slice(), "/sentence[", j);
        let node = make_leaf(ss[j].as_slice(), HierarchyLevel::Sentence, j, sp.as_slice());
        push_node(&mut kids, node);
        j += 1;
        assert(nodes_view(kids@) =~= sentence_nodes(path@, views_of(ss@)).take(j as int));
    }
    if ss.len() > 0 {
        let empty: Vec<char> = Vec::new();
        let mut node = make_leaf(empty.as_slice(), HierarchyLevel::Paragraph, k, path.as_slice());
        proof { lemma_children_view(node); }
        node.children = kids;
        proof {
            lemma_children_view(node);
            assert(sentence_nodes(path@, views_of(ss@)).take(j as int) =~= sentence_nodes(path@, views_of(ss@)));
        }
        push_node(&mut out, node);
    }
    assert(nodes_view(out@) =~= paragraph_nodes(file_name@, p@, k as nat));
    out
}

/// The children of a plain-text document root.
#[verifier::spinoff_prover]
#[verifier::rlimit(40)]
fn plain_children(content: &[char], file_name: &[char]) -> (r: Vec<HierarchyNode>)
    ensures
        nodes_view(r@) == plain_nodes(file_name@, paragraphs(content@)),
{
    let sep = to_chars("\n\n");
    proof {
        reveal_strlit("\n\n");
    }
    let pieces = crate::text::split_str_chars(content, sep.as_slice());
    let ghost all = views_of(pieces@);
    let mut out: Vec<HierarchyNode> = Vec::new();
    let mut idx: usize = 0;
    let mut k: usize = 0;
    assert(all.take(0) =~= Seq::<Seq<char>>::empty());
    while k < pieces.len()
        invariant
            k <= pieces@.len(),
            all == views_of(pieces@),
            idx == nonempty_trimmed(all.take(k as int)).len(),
            idx <= k,
            nodes_view(out@) == plain_nodes(file_name@, nonempty_trimmed(all.take(k as int))),
        decreases pieces@.len() - k,
    {
        proof {
            assert(all.take(k + 1).drop_last() =~= all.take(k as int));
        }
        let t = trim_chars(pieces[k].as_slice());
        if t.len() > 0 {
            let ghost before = nonempty_trimmed(all.take(k as int));
            let ghost o0 = nodes_view(out@);
            let nodes = paragraph_nodes_exec(file_name, t.as_slice(), idx);
            let mut nodes = nodes;
            let ghost added = nodes_view(nodes@);
            out.append(&mut nodes);
            proof {
                let after = before.push(t@);
                assert(after.drop_last() =~= before);
                assert(nodes_view(out@) =~= o0 + added);
            }
            idx += 1;
        }
        k += 1;
    }
    assert(all.take(pieces@.len() as int) =~= all);
    out
}

/// Parse a plain-text document: paragraphs, long ones split into sentences.
pub fn parse_plain_text(content: &str, file_name: &str) -> (r: HierarchyNode)
    ensures
        r@ == plain_tree(content@, file_name@),
        paragraphs(content@).len() == 1 && vstd::utf8::encode_utf8(paragraphs(content@)[0]).len()
            >= 500 ==> forall|j: int|
            0 <= j < sentences(paragraphs(content@)[0]).len() ==> (#[trigger] r@.children[0].children[j]).content
                == sentences(paragraphs(content@)[0])[j] && r@.children[0].children[j].order_index == j,
{
    proof {
        assert forall|j: int|
            paragraphs(content@).len() == 1 && vstd::utf8::encode_utf8(paragraphs(content@)[0]).len()
                >= 500 && 0 <= j < sentences(paragraphs(content@)[0]).len() implies (
            #[trigger] plain_tree(content@, file_name@).children[0].children[j]).content == sentences(
            paragraphs(content@)[0],
        )[j] && plain_tree(content@, file_name@).children[0].children[j].order_index == j by {
            lemma_plain_tree_sentences_in_order(content@, file_name@, j);
        }
    }
    let file = to_chars(file_name);
    let c = to_chars(content);
    plain_root(c.as_slice(), file.as_slice())
}

fn plain_root(content: &[char], file: &[char]) -> (r: HierarchyNode)
    ensures
        r@ == plain_tree(content@, file@),
{
    let children = plain_children(content, file);
    let mut root = document_root_exec(file);
    proof { lemma_children_view(root); }
    root.children = children;
    proof {
        lemma_children_view(root);
        assert(root@ =~= plain_tree(content@, file@));
    }
    root
}


// ---------------------------------------------------------------------------
// Source code
// ---------------------------------------------------------------------------

/// The name after `pre` in `line`, up to the first `end` after it, trimmed;
/// `None` when either is missing.
pub open spec fn pattern_name(line: Seq<char>, pre: Seq<char>, end: Seq<char>) -> Option<Seq<char>> {
    match crate::text::find(line, pre) {
        Some(pos) => {
            let after = line.skip(pos + pre.len());
            match crate::text::find(after, end) {
                Some(e) => Some(trim(after.take(e))),
                None => None,
            }
        },
        None => None,
    }
}

/// The function keywords tried before `class`, in order, each name ending
/// at `(`.
pub open spec fn patterns_before_class() -> Seq<Seq<char>> {
    seq!["fn "@, "func "@, "def "@, "function "@]
}

/// The function keywords tried after `class`, in order.
pub open spec fn patterns_after_class() -> Seq<Seq<char>> {
    seq!["pub fn "@, "async fn "@, "pub async fn "@]
}

/// The name found by the first keyword of `pats` that applies.
pub open spec fn first_found(line: Seq<char>, pats: Seq<Seq<char>>) -> Option<Seq<char>>
    decreases pats.len(),
{
    if pats.len() == 0 {
        None
    } else {
        match pattern_name(line, pats[0], "("@) {
            Some(n) => Some(n),
            None => first_found(line, pats.drop_first()),
        }
    }
}

/// A character that ends a class name.
pub open spec fn ends_class_name(c: char) -> bool {
    c == ' ' || c == ':' || c == '(' || c == '{'
}

/// Length of the leading part of `s` before a character that ends a class
/// name.
pub open spec fn class_name_len(s: Seq<char>) -> nat
    decreases s.len(),
{
    if s.len() == 0 || ends_class_name(s[0]) {
        0
    } else {
        1 + class_name_len(s.drop_first())
    }
}

/// The class name after `class `: up to a space, `:`, `(` or `{`, or the
/// end of the line, trimmed.
pub open spec fn class_name(line: Seq<char>) -> Option<Seq<char>> {
    match crate::text::find(line, "class "@) {
        Some(pos) => {
            let after = line.skip(pos + 6);
            Some(trim(after.take(class_name_len(after) as int)))
        },
        None => None,
    }
}

/// The function or class name of a definition line: found by the function
/// keywords, then by `class`, then by the remaining function keywords;
/// else the whole line.
pub open spec fn function_name(line: Seq<char>) -> Seq<char> {
    match first_found(line, patterns_before_class()) {
        Some(n) => n,
        None => match class_name(line) {
            Some(n) => n,
            None => match first_found(line, patterns_after_class()) {
                Some(n) => n,
                None => line,
            },
        },
    }
}

fn pattern_name_exec(line: &[char], pre: &str, end: &str) -> (r: Option<Vec<char>>)
    ensures
        match r {
            Some(v) => pattern_name(line@, pre@, end@) == Some(v@),
            None => pattern_name(line@, pre@, end@) is None,
        },
{
    let p = to_chars(pre);
    let e = to_chars(end);
    proof {
        crate::text::lemma_find_some(line@, pre@);
    }
    match crate::text::find_chars(line, p.as_slice()) {
        Some(pos) => {
            assert(crate::text::first_match(line@, pre@, pos as int));
            let pl = p.len();
            let ll = line.len();
            assert(pos + pl <= ll);
            proof {
                crate::text::lemma_find_some(line@.skip(pos + p@.len()), end@);
            }
            let after = slice_to_vec(line, pos + pl, ll);
            assert(after@ =~= line@.skip(pos + p@.len()));
            match crate::text::find_chars(after.as_slice(), e.as_slice()) {
                Some(k) => {
                    let name = slice_to_vec(after.as_slice(), 0, k);
                    assert(name@ =~= after@.take(k as int));
                    Some(trim_chars(name.as_slice()))
                },
                None => None,
            }
        },
        None => None,
    }
}

fn class_name_exec(line: &[char]) -> (r: Option<Vec<char>>)
    ensures
        match r {
            Some(v) => class_name(line@) == Some(v@),
            None => class_name(line@) is None,
        },
{
    let pre = to_chars("class ");
    proof {
        reveal_strlit("class ");
    }
    proof {
        crate::text::lemma_find_some(line@, "class "@);
    }
    match crate::text::find_chars(line, pre.as_slice()) {
        Some(pos) => {
            let n = line.len();
            assert(pos + 6 <= line@.len());
            let start: usize = pos + 6;
            let after = slice_to_vec(line, start, n);
            assert(after@ =~= line@.skip(pos + 6));
            let mut k: usize = 0;
            assert(after@.skip(0) =~= after@);
            while k < after.len() && !(after[k] == ' ' || after[k] == ':' || after[k] == '(' || after[k] == '{')
                invariant
                    k <= after@.len(),
                    class_name_len(after@) == k + class_name_len(after@.skip(k as int)),
                decreases after@.len() - k,
            {
                assert(after@.skip(k as int).drop_first() =~= after@.skip(k + 1));
                k += 1;
            }
            let name = slice_to_vec(after.as_slice(), 0, k);
            assert(name@ =~= after@.take(k as int));
            Some(trim_chars(name.as_slice()))
        },
        None => None,
    }
}

/// Extract the function or class name from a definition line; see
/// `function_name`.
pub fn extract_function_name(line: &str) -> (r: String)
    ensures
        r@ == function_name(line@),
{
    let l = to_chars(line);
    let v = function_name_chars(l.as_slice());
    from_chars(v.as_slice())
}

fn function_name_chars(l: &[char]) -> (r: Vec<char>)
    ensures
        r@ == function_name(l@),
{
    proof {
        reveal_with_fuel(first_found, 5);
        let b = patterns_before_class();
        assert(b.drop_first() =~= seq!["func "@, "def "@, "function "@]);
        assert(b.drop_first().drop_first() =~= seq!["def "@, "function "@]);
        assert(b.drop_first().drop_first().drop_first() =~= seq!["function "@]);
        assert(b.drop_first().drop_first().drop_first().drop_first() =~= Seq::<Seq<char>>::empty());
        let c = patterns_after_class();
        assert(c.drop_first() =~= seq!["async fn "@, "pub async fn "@]);
        assert(c.drop_first().drop_first() =~= seq!["pub async fn "@]);
        assert(c.drop_first().drop_first().drop_first() =~= Seq::<Seq<char>>::empty());
    }
    if let Some(n) = pattern_name_exec(l, "fn ", "(") {
        return n;
    }
    if let Some(n) = pattern_name_exec(l, "func ", "(") {
        return n;
    }
    if let Some(n) = pattern_name_exec(l, "def ", "(") {
        return n;
    }
    if let Some(n) = pattern_name_exec(l, "function ", "(") {
        return n;
    }
    if let Some(n) = class_name_exec(l) {
        return n;
    }
    if let Some(n) = pattern_name_exec(l, "pub fn ", "(") {
        return n;
    }
    if let Some(n) = pattern_name_exec(l, "async fn ", "(") {
        return n;
    }
    if let Some(n) = pattern_name_exec(l, "pub async fn ", "(") {
        return n;
    }
    slice_to_vec(l, 0, l.len())
}

/// A line that opens a function or class definition.
pub open spec fn is_definition(t: Seq<char>) -> bool {
    ||| starts_with(t, "fn "@)
    ||| starts_with(t, "func "@)
    ||| starts_with(t, "def "@)
    ||| starts_with(t, "function "@)
    ||| starts_with(t, "class "@)
    ||| starts_with(t, "pub fn "@)
    ||| starts_with(t, "async fn "@)
    ||| starts_with(t, "pub async fn "@)
}

fn is_definition_exec(t: &[char]) -> (r: bool)
    ensures
        r == is_definition(t@),
{
    let a = to_chars("fn ");
    let b = to_chars("func ");
    let c = to_chars("def ");
    let d = to_chars("function ");
    let e = to_chars("class ");
    let f = to_chars("pub fn ");
    let g = to_chars("async fn ");
    let h = to_chars("pub async fn ");
    starts_with_chars(t, a.as_slice()) || starts_with_chars(t, b.as_slice()) || starts_with_chars(
        t,
        c.as_slice(),
    ) || starts_with_chars(t, d.as_slice()) || starts_with_chars(t, e.as_slice())
        || starts_with_chars(t, f.as_slice()) || starts_with_chars(t, g.as_slice())
        || starts_with_chars(t, h.as_slice())
}

/// State of the line-by-line code reader.
#[verifier::ext_equal]
pub struct CodeState {
    /// Function nodes collected so far.
    pub children: Seq<NodeSpec>,
    /// The open definition: its name, first line number and lines.
    pub current: Option<(Seq<char>, nat, Seq<Seq<char>>)>,
    /// Index of the next function node.
    pub index: nat,
}

/// `{file}/function[{k}]`.
pub open spec fn function_path(file_name: Seq<char>, k: nat) -> Seq<char> {
    file_name + "/function["@ + decimal(k) + "]"@
}

/// `Line {start}: {name}` followed by a blank line and the definition's lines.
pub open spec fn function_text(name: Seq<char>, start: nat, ls: Seq<Seq<char>>) -> Seq<char> {
    "Line "@ + decimal(start) + ": "@ + name + "\n\n"@ + join(ls, "\n"@)
}

/// Closes the open definition into a section node.
pub open spec fn code_flush(file_name: Seq<char>, st: CodeState) -> CodeState {
    match st.current {
        Some(f) => CodeState {
            children: st.children.push(
                leaf(function_text(f.0, f.1, f.2), HierarchyLevel::Section, st.index, function_path(file_name, st.index)),
            ),
            current: None,
            index: st.index + 1,
        },
        None => st,
    }
}

/// Line `num` (from 0) of the source: a definition line closes the open
/// definition and opens a new one; every line goes to the open definition.
pub open spec fn code_step(file_name: Seq<char>, st: CodeState, line: Seq<char>, num: nat) -> CodeState {
    let t = trim(line);
    let st1 = if is_definition(t) {
        CodeState { current: Some((function_name(t), num + 1, Seq::empty())), ..code_flush(file_name, st) }
    } else {
        st
    };
    match st1.current {
        Some(f) => CodeState { current: Some((f.0, f.1, f.2.push(line))), ..st1 },
        None => st1,
    }
}

pub open spec fn code_run(file_name: Seq<char>, ls: Seq<Seq<char>>) -> CodeState
    decreases ls.len(),
{
    if ls.len() == 0 {
        CodeState { children: Seq::empty(), current: None, index: 0 }
    } else {
        code_step(file_name, code_run(file_name, ls.drop_last()), ls.last(), (ls.len() - 1) as nat)
    }
}

/// The tree of a source file: one section per definition, or the plain-text
/// tree when there is none.
pub open spec fn code_tree(content: Seq<char>, file_name: Seq<char>) -> NodeSpec {
    let st = code_flush(file_name, code_run(file_name, lines(content)));
    if st.children.len() == 0 {
        plain_tree(content, file_name)
    } else {
        NodeSpec {
            content: "Code: "@ + file_name,
            level: HierarchyLevel::Document,
            order_index: 0,
            path: file_name,
            children: st.children,
        }
    }
}

struct CodeBuilder {
    children: Vec<HierarchyNode>,
    current: Option<(Vec<char>, usize, Vec<Vec<char>>)>,
    index: usize,
}

impl CodeBuilder {
    spec fn state(&self) -> CodeState {
        CodeState {
            children: nodes_view(self.children@),
            current: match self.current {
                Some(f) => Some((f.0@, f.1 as nat, views_of(f.2@))),
                None => None,
            },
            index: self.index as nat,
        }
    }

    fn flush(&mut self, file_name: &[char])
        ensures
            old(self).index < usize::MAX ==> final(self).state() == code_flush(
                file_name@,
                old(self).state(),
            ),
            final(self).state().children == code_flush(file_name@, old(self).state()).children,
            final(self).index <= old(self).index + 1,
    {
        let mut cur: Option<(Vec<char>, usize, Vec<Vec<char>>)> = None;
        std::mem::swap(&mut cur, &mut self.current);
        match cur {
            Some(f) => {
                let mut text = to_chars("Line ");
                append_decimal(&mut text, f.1 as u64);
                let colon = to_chars(": ");
                append_chars(&mut text, colon.as_slice());
                append_chars(&mut text, f.0.as_slice());
                let blank = to_chars("\n\n");
                append_chars(&mut text, blank.as_slice());
                let nl = to_chars("\n");
                let body = join_chars(&f.2, nl.as_slice());
                append_chars(&mut text, body.as_slice());
                let path = indexed(file_name, "/function[", self.index);
                let node = make_leaf(text.as_slice(), HierarchyLevel::Section, self.index, path.as_slice());
                push_node(&mut self.children, node);
                if self.index < usize::MAX {
                    self.index = self.index + 1;
                }
            },
            None => {},
        }
        proof {
            if old(self).index < usize::MAX {
                assert(self.state() =~= code_flush(file_name@, old(self).state()));
            }
        }
    }

    fn step(&mut self, file_name: &[char], line: &[char], num: usize)
        requires
            old(self).index < usize::MAX,
            num < usize::MAX,
        ensures
            final(self).state() == code_step(file_name@, old(self).state(), line@, num as nat),
            final(self).index <= old(self).index + 1,
    {
        let t = trim_chars(line);
        if is_definition_exec(t.as_slice()) {
            self.flush(file_name);
            let name = function_name_chars(t.as_slice());
            self.current = Some((name, num + 1, Vec::new()));
            assert(views_of(Seq::<Vec<char>>::empty()) =~= Seq::<Seq<char>>::empty());
        }
        let mut cur: Option<(Vec<char>, usize, Vec<Vec<char>>)> = None;
        std::mem::swap(&mut cur, &mut self.current);
        match cur {
            Some(f) => {
                let (n, s, mut ls) = f;
                let ghost l0 = views_of(ls@);
                let l = slice_to_vec(line, 0, line.len());
                assert(l@ =~= line@);
                ls.push(l);
                assert(views_of(ls@) =~= l0.push(line@));
                self.current = Some((n, s, ls));
            },
            None => {},
        }
        assert(self.state() =~= code_step(file_name@, old(self).state(), line@, num as nat));
    }
}

/// Parse source code: one section per function or class definition; plain
/// text when there is none.
pub fn parse_code(content: &str, file_name: &str) -> (r: HierarchyNode)
    ensures
        r@ == code_tree(content@, file_name@),
{
    let file = to_chars(file_name);
    let c = to_chars(content);
    let ls = lines_chars(c.as_slice());
    let ghost all = views_of(ls@);
    let mut b = CodeBuilder { children: Vec::new(), current: None, index: 0 };
    assert(b.state() =~= code_run(file@, all.take(0)));
    let mut i: usize = 0;
    while i < ls.len()
        invariant
            i <= ls@.len(),
            all == views_of(ls@),
            b.state() == code_run(file@, all.take(i as int)),
            b.index <= i,
        decreases ls@.len() - i,
    {
        proof {
            assert(all.take(i + 1).drop_last() =~= all.take(i as int));
        }
        b.step(file.as_slice(), ls[i].as_slice(), i);
        i += 1;
    }
    assert(all.take(ls@.len() as int) =~= all);
    b.flush(file.as_slice());
    if b.children.len() == 0 {
        return plain_root(c.as_slice(), file.as_slice());
    }
    let mut title = to_chars("Code: ");
    append_chars(&mut title, file.as_slice());
    let mut root = make_leaf(title.as_slice(), HierarchyLevel::Document, 0, file.as_slice());
    proof { lemma_children_view(root); }
    root.children = b.children;
    proof {
        lemma_children_view(root);
        assert(root@ =~= code_tree(content@, file_name@));
    }
    root
}


// ---------------------------------------------------------------------------
// HTML and XML
// ---------------------------------------------------------------------------

/// A piece after `<` that opens a script or style element: its text is
/// the element's code and is dropped.
pub open spec fn opens_script_or_style(chunk: Seq<char>) -> bool {
    starts_with(chunk, "script"@) || starts_with(chunk, "style"@)
}

/// The text a piece after `<` keeps: what follows the tag's closing `>`;
/// nothing for a piece that opens a script or style element or whose tag
/// is not closed.
pub open spec fn after_tag(chunk: Seq<char>) -> Seq<char> {
    if opens_script_or_style(chunk) {
        Seq::empty()
    } else {
        match crate::text::find(chunk, ">"@) {
            Some(p) => chunk.skip(p + 1),
            None => Seq::empty(),
        }
    }
}

/// The text kept of the pieces after each `<`, concatenated.
pub open spec fn kept_chunks(chunks: Seq<Seq<char>>) -> Seq<char>
    decreases chunks.len(),
{
    if chunks.len() == 0 {
        Seq::empty()
    } else {
        kept_chunks(chunks.drop_last()) + after_tag(chunks.last())
    }
}

/// The kept text of two runs of pieces is the kept text of the first, then
/// that of the second.
pub proof fn lemma_kept_chunks_concat(a: Seq<Seq<char>>, b: Seq<Seq<char>>)
    ensures
        kept_chunks(a + b) == kept_chunks(a) + kept_chunks(b),
    decreases b.len(),
{
    if b.len() == 0 {
        assert(a + b =~= a);
        assert(kept_chunks(a) + kept_chunks(b) =~= kept_chunks(a));
    } else {
        lemma_kept_chunks_concat(a, b.drop_last());
        assert((a + b).drop_last() =~= a + b.drop_last());
        assert((a + b).last() == b.last());
        assert(kept_chunks(a + b) =~= kept_chunks(a) + kept_chunks(b));
    }
}

/// The non-blank lines of `s`, trimmed, joined by newlines.
pub open spec fn tidy_lines(s: Seq<char>) -> Seq<char> {
    join(nonempty_trimmed(lines(s)), "\n"@)
}

/// Text of an HTML document: the text before the first `<` and, after each
/// `<`, what follows its tag (`after_tag`); then blank lines are dropped and
/// the rest trimmed.
pub open spec fn html_text(content: Seq<char>) -> Seq<char> {
    let cs = crate::text::split_on(content, '<');
    tidy_lines(cs[0] + kept_chunks(cs.drop_first()))
}

/// The text of a `<script` or `<style` tag, up to the next `<`, is dropped:
/// the document reads as if that piece were not there.
pub proof fn lemma_script_and_style_dropped(a: Seq<char>, y: Seq<char>, b: Seq<char>)
    requires
        !y.contains('<'),
    ensures
        html_text(a + "<"@ + "style"@ + y + "<"@ + b) == html_text(a + "<"@ + b),
        html_text(a + "<"@ + "script"@ + y + "<"@ + b) == html_text(a + "<"@ + b),
{
    reveal_strlit("style");
    reveal_strlit("script");
    let tags = seq!["style"@, "script"@];
    assert forall|j: int| #![trigger tags[j]] 0 <= j < 2 implies {
        let w = tags[j] + y;
        &&& !w.contains('<')
        &&& after_tag(w) == Seq::<char>::empty()
        &&& a + "<"@ + tags[j] + y + "<"@ + b == a + "<"@ + w + "<"@ + b
    } by {
        let tag = tags[j];
        let w = tag + y;
        assert(tag.len() <= 6);
        assert(forall|k: int| 0 <= k < tag.len() ==> tag[k] != '<') by {
            assert(tags[0] =~= seq!['s', 't', 'y', 'l', 'e']);
            assert(tags[1] =~= seq!['s', 'c', 'r', 'i', 'p', 't']);
        }
        assert(!w.contains('<')) by {
            if w.contains('<') {
                let k = choose|k: int| 0 <= k < w.len() && w[k] == '<';
                if k < tag.len() {
                    assert(w[k] == tag[k]);
                } else {
                    assert(w[k] == y[k - tag.len()]);
                }
            }
        }
        assert(w.take(tag.len() as int) =~= tag);
        assert(starts_with(w, tag));
        assert(tag == "style"@ || tag == "script"@);
    }
    lemma_piece_dropped(a, tags[0] + y, b);
    lemma_piece_dropped(a, tags[1] + y, b);
}

/// A piece between two `<` that keeps no text leaves the document's text
/// unchanged.
proof fn lemma_piece_dropped(a: Seq<char>, w: Seq<char>, b: Seq<char>)
    requires
        !w.contains('<'),
        after_tag(w) == Seq::<char>::empty(),
    ensures
        html_text(a + "<"@ + w + "<"@ + b) == html_text(a + "<"@ + b),
{
    reveal_strlit("<");
    assert("<"@ =~= seq!['<']);
    let t = w.push('<') + b;
    assert(a + "<"@ + w + "<"@ + b =~= a.push('<') + t);
    assert(a + "<"@ + b =~= a.push('<') + b);
    crate::text::lemma_split_on_concat(a, '<', t);
    crate::text::lemma_split_on_concat(a, '<', b);
    crate::text::lemma_split_on_first(w, '<', b);
    crate::text::lemma_split_on_nonempty(a, '<');
    let pa = crate::text::split_on(a, '<');
    let pb = crate::text::split_on(b, '<');
    let cs1 = pa + (seq![w] + pb);
    let cs2 = pa + pb;
    assert(cs1[0] == cs2[0]);
    assert(cs1.drop_first() =~= (pa.drop_first() + seq![w]) + pb);
    assert(cs2.drop_first() =~= pa.drop_first() + pb);
    lemma_kept_chunks_concat(pa.drop_first() + seq![w], pb);
    lemma_kept_chunks_concat(pa.drop_first(), seq![w]);
    lemma_kept_chunks_concat(pa.drop_first(), pb);
    assert(seq![w].drop_last() =~= Seq::<Seq<char>>::empty());
    assert(kept_chunks(Seq::<Seq<char>>::empty()) =~= Seq::<char>::empty());
    assert(kept_chunks(seq![w]) =~= after_tag(w));
    assert(kept_chunks(pa.drop_first()) + kept_chunks(seq![w]) =~= kept_chunks(pa.drop_first()));
}

pub(crate) fn tidy_lines_exec(s: &[char]) -> (r: Vec<char>)
    ensures
        r@ == tidy_lines(s@),
{
    let ls = lines_chars(s);
    let ghost all = views_of(ls@);
    let mut kept: Vec<Vec<char>> = Vec::new();
    let mut k: usize = 0;
    assert(all.take(0) =~= Seq::<Seq<char>>::empty());
    assert(views_of(kept@) =~= Seq::<Seq<char>>::empty());
    while k < ls.len()
        invariant
            k <= ls@.len(),
            all == views_of(ls@),
            views_of(kept@) == nonempty_trimmed(all.take(k as int)),
        decreases ls@.len() - k,
    {
        assert(all.take(k + 1).drop_last() =~= all.take(k as int));
        let t = trim_chars(ls[k].as_slice());
        if t.len() > 0 {
            let ghost k0 = views_of(kept@);
            let ghost tv = t@;
            kept.push(t);
            assert(views_of(kept@) =~= k0.push(tv));
        }
        k += 1;
    }
    assert(all.take(ls@.len() as int) =~= all);
    let nl = to_chars("\n");
    join_chars(&kept, nl.as_slice())
}

fn after_tag_exec(c: &[char]) -> (r: Vec<char>)
    ensures
        r@ == after_tag(c@),
{
    let script = to_chars("script");
    let style = to_chars("style");
    if starts_with_chars(c, script.as_slice()) || starts_with_chars(c, style.as_slice()) {
        return Vec::new();
    }
    let gt = to_chars(">");
    proof {
        crate::text::lemma_find_some(c@, ">"@);
        reveal_strlit(">");
    }
    match crate::text::find_chars(c, gt.as_slice()) {
        Some(p) => {
            let n = c.len();
            let r = slice_to_vec(c, p + 1, n);
            assert(r@ =~= c@.skip(p + 1));
            r
        },
        None => Vec::new(),
    }
}

fn html_text_exec(content: &[char]) -> (r: Vec<char>)
    ensures
        r@ == html_text(content@),
{
    let chunks = crate::text::split_on_chars(content, '<');
    let ghost all = views_of(chunks@);
    proof {
        crate::text::lemma_split_on_nonempty(content@, '<');
    }
    let ghost rest = all.drop_first();
    let mut text: Vec<char> = slice_to_vec(chunks[0].as_slice(), 0, chunks[0].len());
    assert(text@ =~= all[0] + kept_chunks(rest.take(0)));
    let mut k: usize = 1;
    while k < chunks.len()
        invariant
            1 <= k <= chunks@.len(),
            all == views_of(chunks@),
            rest == all.drop_first(),
            text@ == all[0] + kept_chunks(rest.take(k - 1)),
        decreases chunks@.len() - k,
    {
        assert(rest.take(k as int).drop_last() =~= rest.take(k - 1));
        assert(rest.take(k as int).last() == all[k as int]);
        let t = after_tag_exec(chunks[k].as_slice());
        append_chars(&mut text, t.as_slice());
        assert(text@ =~= all[0] + kept_chunks(rest.take(k as int)));
        k += 1;
    }
    assert(rest.take(k - 1) =~= rest);
    tidy_lines_exec(text.as_slice())
}

/// Strip HTML tags from content; see `html_text`.
pub fn strip_html_tags(content: &str) -> (r: String)
    ensures
        r@ == html_text(content@),
{
    let c = to_chars(content);
    let t = html_text_exec(c.as_slice());
    from_chars(t.as_slice())
}

/// At a `<script` or `<style` opening, how many characters the block takes:
/// up to and including its closing tag, found ignoring case. `None` when
/// this is not such an opening or no closing tag follows.
pub open spec fn block_skip(rem: Seq<char>) -> Option<nat> {
    if starts_with(rem, "<script"@) || starts_with(rem, "<style"@) {
        let closing = if starts_with(rem, "<script"@) {
            "</script>"@
        } else {
            "</style>"@
        };
        match crate::text::find(crate::text::lower_ascii(rem), closing) {
            Some(p) => Some((p + closing.len()) as nat),
            None => None,
        }
    } else {
        None
    }
}

/// Reading from position `i` with `acc` kept so far: a script or style
/// block is skipped whole, any other character is kept.
pub open spec fn script_style_run(cs: Seq<char>, i: nat, acc: Seq<char>) -> Seq<char>
    decreases cs.len() - i,
{
    if i >= cs.len() {
        acc
    } else {
        match block_skip(cs.skip(i as int)) {
            Some(n) => if 0 < n && i + n <= cs.len() {
                script_style_run(cs, i + n, acc)
            } else {
                script_style_run(cs, i + 1, acc.push(cs[i as int]))
            },
            None => script_style_run(cs, i + 1, acc.push(cs[i as int])),
        }
    }
}

/// Text with script and style blocks removed.
pub open spec fn without_script_style(cs: Seq<char>) -> Seq<char> {
    script_style_run(cs, 0, Seq::empty())
}

/// `block_skip` of the rest of the text; a skip never runs past its end.
fn block_skip_exec(rem: &[char]) -> (r: Option<usize>)
    ensures
        r matches Some(n) ==> 0 < n <= rem@.len() && block_skip(rem@) == Some(n as nat),
        r is None ==> block_skip(rem@) is None,
{
    let open_script = to_chars("<script");
    let open_style = to_chars("<style");
    let is_script = starts_with_chars(rem, open_script.as_slice());
    if !is_script && !starts_with_chars(rem, open_style.as_slice()) {
        return None;
    }
    let closing = if is_script { to_chars("</script>") } else { to_chars("</style>") };
    proof {
        reveal_strlit("</script>");
        reveal_strlit("</style>");
    }
    let lower = crate::text::lower_ascii_exec(rem);
    proof {
        crate::text::lemma_find_some(lower@, closing@);
    }
    match crate::text::find_chars(lower.as_slice(), closing.as_slice()) {
        Some(p) => {
            let n = rem.len();
            assert(p + closing@.len() <= lower@.len());
            Some(p + closing.len())
        },
        None => None,
    }
}

fn without_script_style_exec(cs: &[char]) -> (r: Vec<char>)
    ensures
        r@ == without_script_style(cs@),
{
    let mut out: Vec<char> = Vec::new();
    let mut i: usize = 0;
    while i < cs.len()
        invariant
            i <= cs@.len(),
            without_script_style(cs@) == script_style_run(cs@, i as nat, out@),
        decreases cs@.len() - i,
    {
        let rem = slice_to_vec(cs, i, cs.len());
        assert(rem@ =~= cs@.skip(i as int));
        match block_skip_exec(rem.as_slice()) {
            Some(n) => {
                assert(block_skip(cs@.skip(i as int)) == Some(n as nat));
                assert(script_style_run(cs@, i as nat, out@) == script_style_run(cs@, (i + n) as nat, out@));
                i = i + n;
            },
            None => {
                assert(block_skip(cs@.skip(i as int)) is None);
                assert(script_style_run(cs@, i as nat, out@) == script_style_run(cs@, (i + 1) as nat, out@.push(cs@[i as int])));
                out.push(cs[i]);
                i += 1;
            },
        }
    }
    out
}

/// Remove script and style blocks; see `without_script_style`.
pub fn remove_script_style(content: &str) -> (r: String)
    ensures
        r@ == without_script_style(content@),
{
    let c = to_chars(content);
    let t = without_script_style_exec(c.as_slice());
    from_chars(t.as_slice())
}

/// The tree of an HTML document: its text, without script and style
/// blocks, read as plain text.
pub open spec fn html_tree(content: Seq<char>, file_name: Seq<char>) -> NodeSpec {
    plain_tree(without_script_style(html_text(content)), file_name)
}

/// Parse an HTML document into a hierarchy; see `html_tree`.
pub fn parse_html(content: &str, file_name: &str) -> (r: HierarchyNode)
    ensures
        r@ == html_tree(content@, file_name@),
{
    let file = to_chars(file_name);
    let c = to_chars(content);
    let t = html_text_exec(c.as_slice());
    let u = without_script_style_exec(t.as_slice());
    plain_root(u.as_slice(), file.as_slice())
}

/// Characters outside `<...>` tags, and whether the reader ends inside one.
pub open spec fn outside_tags(s: Seq<char>) -> (Seq<char>, bool)
    decreases s.len(),
{
    if s.len() == 0 {
        (Seq::empty(), false)
    } else {
        let prev = outside_tags(s.drop_last());
        let c = s.last();
        if c == '<' {
            (prev.0, true)
        } else if c == '>' {
            (prev.0, false)
        } else if !prev.1 {
            (prev.0.push(c), false)
        } else {
            prev
        }
    }
}

/// Text of an XML document: the characters outside tags, trimmed.
pub open spec fn xml_text(content: Seq<char>) -> Seq<char> {
    trim(outside_tags(content).0)
}

/// The characters outside tags; see `outside_tags`.
pub(crate) fn outside_tags_exec(content: &[char]) -> (r: Vec<char>)
    ensures
        r@ == outside_tags(content@).0,
{
    let mut out: Vec<char> = Vec::new();
    let mut in_tag = false;
    let mut i: usize = 0;
    while i < content.len()
        invariant
            i <= content@.len(),
            outside_tags(content@.take(i as int)) == (out@, in_tag),
        decreases content@.len() - i,
    {
        assert(content@.take(i + 1).drop_last() =~= content@.take(i as int));
        let c = content[i];
        if c == '<' {
            in_tag = true;
        } else if c == '>' {
            in_tag = false;
        } else if !in_tag {
            out.push(c);
        }
        i += 1;
    }
    assert(content@.take(content@.len() as int) =~= content@);
    out
}

fn xml_text_exec(content: &[char]) -> (r: Vec<char>)
    ensures
        r@ == xml_text(content@),
{
    let out = outside_tags_exec(content);
    trim_chars(out.as_slice())
}

/// Strip XML tags; see `xml_text`.
pub fn strip_xml_tags(content: &str) -> (r: String)
    ensures
        r@ == xml_text(content@),
{
    let c = to_chars(content);
    let t = xml_text_exec(c.as_slice());
    from_chars(t.as_slice())
}

/// The tree of an XML document: its text read as plain text.
pub open spec fn xml_tree(content: Seq<char>, file_name: Seq<char>) -> NodeSpec {
    plain_tree(xml_text(content), file_name)
}

/// Parse an XML document into a hierarchy; see `xml_tree`.
pub fn parse_xml(content: &str, file_name: &str) -> (r: HierarchyNode)
    ensures
        r@ == xml_tree(content@, file_name@),
{
    let file = to_chars(file_name);
    let c = to_chars(content);
    let t = xml_text_exec(c.as_slice());
    plain_root(t.as_slice(), file.as_slice())
}

// ---------------------------------------------------------------------------
// File types
// ---------------------------------------------------------------------------

/// The document kind for a (lowercased) file extension.
pub open spec fn file_type_for(ext: Seq<char>) -> Seq<char> {
    if ext == "md"@ || ext == "markdown"@ {
        "markdown"@
    } else if ext == "json"@ || ext == "jsonl"@ {
        "json"@
    } else if ext == "html"@ || ext == "htm"@ {
        "html"@
    } else if ext == "xml"@ {
        "xml"@
    } else if ext == "rs"@ || ext == "py"@ || ext == "js"@ || ext == "ts"@ || ext == "java"@
        || ext == "c"@ || ext == "cpp"@ || ext == "go"@ || ext == "rb"@ || ext == "php"@ {
        "code"@
    } else {
        "text"@
    }
}

/// The extensions of source code files.
pub open spec fn source_code_extensions() -> Seq<Seq<char>> {
    seq!["rs"@, "py"@, "js"@, "ts"@, "java"@, "c"@, "cpp"@, "go"@, "rb"@, "php"@]
}

/// Every source-code extension, written in any mix of upper and lower case,
/// is plain ASCII and its kind is "code".
pub proof fn lemma_code_extensions_any_case(ext: Seq<char>)
    requires
        source_code_extensions().contains(lower_ascii(ext)),
    ensures
        is_ascii_text(ext),
        file_type_for(lower_ascii(ext)) == "code"@,
{
    reveal_strlit("rs");
    reveal_strlit("py");
    reveal_strlit("js");
    reveal_strlit("ts");
    reveal_strlit("java");
    reveal_strlit("c");
    reveal_strlit("cpp");
    reveal_strlit("go");
    reveal_strlit("rb");
    reveal_strlit("php");
    reveal_strlit("md");
    reveal_strlit("markdown");
    reveal_strlit("json");
    reveal_strlit("jsonl");
    reveal_strlit("html");
    reveal_strlit("htm");
    reveal_strlit("xml");
    let l = lower_ascii(ext);
    assert(is_ascii_text(l)) by {
        if l == "rs"@ {
            assert forall|i: int| 0 <= i < l.len() implies (l[i] as u32) < 128 by {
                if i == 0 { } else { }
            }
        } else if l == "py"@ {
            assert forall|i: int| 0 <= i < l.len() implies (l[i] as u32) < 128 by {
                if i == 0 { } else { }
            }
        } else if l == "js"@ {
            assert forall|i: int| 0 <= i < l.len() implies (l[i] as u32) < 128 by {
                if i == 0 { } else { }
            }
        } else if l == "ts"@ {
            assert forall|i: int| 0 <= i < l.len() implies (l[i] as u32) < 128 by {
                if i == 0 { } else { }
            }
        } else if l == "java"@ {
            assert forall|i: int| 0 <= i < l.len() implies (l[i] as u32) < 128 by {
                if i == 0 { } else if i == 1 { } else if i == 2 { } else { }
            }
        } else if l == "c"@ {
            assert forall|i: int| 0 <= i < l.len() implies (l[i] as u32) < 128 by { }
        } else if l == "cpp"@ {
            assert forall|i: int| 0 <= i < l.len() implies (l[i] as u32) < 128 by {
                if i == 0 { } else if i == 1 { } else { }
            }
        } else if l == "go"@ {
            assert forall|i: int| 0 <= i < l.len() implies (l[i] as u32) < 128 by {
                if i == 0 { } else { }
            }
        } else if l == "rb"@ {
            assert forall|i: int| 0 <= i < l.len() implies (l[i] as u32) < 128 by {
                if i == 0 { } else { }
            }
        } else {
            assert(l == "php"@);
            assert forall|i: int| 0 <= i < l.len() implies (l[i] as u32) < 128 by {
                if i == 0 { } else if i == 1 { } else { }
            }
        }
    }
    assert forall|i: int| 0 <= i < ext.len() implies (ext[i] as u32) < 128 by {
        assert(l[i] == crate::text::ascii_lower(ext[i]));
    }
    assert("md"@[0] == 'm' && "markdown"@[0] == 'm' && "json"@[1] == 's' && "jsonl"@[1] == 's');
    assert("html"@[0] == 'h' && "htm"@[0] == 'h' && "xml"@[0] == 'x');
    if l == "rs"@ {
        assert(l[0] == 'r' && l[1] == 's');
    } else if l == "py"@ {
        assert(l[0] == 'p' && l[1] == 'y');
    } else if l == "js"@ {
        assert(l[0] == 'j' && l[1] == 's');
    } else if l == "ts"@ {
        assert(l[0] == 't' && l[1] == 's');
    } else if l == "java"@ {
        assert(l[0] == 'j' && l[1] == 'a');
    } else if l == "c"@ {
        assert(l[0] == 'c');
    } else if l == "cpp"@ {
        assert(l[0] == 'c' && l[1] == 'p');
    } else if l == "go"@ {
        assert(l[0] == 'g' && l[1] == 'o');
    } else if l == "rb"@ {
        assert(l[0] == 'r' && l[1] == 'b');
    } else {
        assert(l == "php"@);
        assert(l[0] == 'p' && l[1] == 'h');
    }
}

/// Determine the document kind from a file extension, ignoring case.
pub fn get_file_type(extension: &str) -> (r: &'static str)
    ensures
        r@ == file_type_for(crate::text::spec_to_lowercase(extension@)),
        is_ascii_text(extension@) ==> r@ == file_type_for(lower_ascii(extension@)),
        source_code_extensions().contains(lower_ascii(extension@)) ==> r@ == "code"@,
{
    proof {
        if source_code_extensions().contains(lower_ascii(extension@)) {
            lemma_code_extensions_any_case(extension@);
        }
    }
    let lower = crate::text::to_lowercase(extension);
    let e = lower.as_str();
    let eq = |a: &str, b: &str| -> (r: bool)
        ensures r == (a@ == b@)
    { crate::text::str_eq(a, b) };
    if eq(e, "md") || eq(e, "markdown") {
        "markdown"
    } else if eq(e, "json") || eq(e, "jsonl") {
        "json"
    } else if eq(e, "html") || eq(e, "htm") {
        "html"
    } else if eq(e, "xml") {
        "xml"
    } else if eq(e, "rs") || eq(e, "py") || eq(e, "js") || eq(e, "ts") || eq(e, "java") || eq(e, "c")
        || eq(e, "cpp") || eq(e, "go") || eq(e, "rb") || eq(e, "php") {
        "code"
    } else {
        "text"
    }
}


// ---------------------------------------------------------------------------
// Flattening into memory records
// ---------------------------------------------------------------------------

/// One record of a flattened tree: the node's own fields and the position
/// of its parent's record.
#[verifier::ext_equal]
pub struct FlatEntry {
    pub content: Seq<char>,
    pub level: HierarchyLevel,
    pub order_index: nat,
    pub path: Seq<char>,
    pub parent: Option<int>,
}

/// The records of `n` and its descendants in preorder, the first at
/// position `base`, with `parent` as the position of the record above `n`.
pub open spec fn flat_node(n: NodeSpec, parent: Option<int>, base: int) -> Seq<FlatEntry>
    decreases n,
{
    seq![FlatEntry { content: n.content, level: n.level, order_index: n.order_index, path: n.path, parent }]
        + flat_nodes(n.children, base, base + 1)
}

/// The records of sibling subtrees in order, the first at position `base`,
/// all below the record at position `parent`.
pub open spec fn flat_nodes(cs: Seq<NodeSpec>, parent: int, base: int) -> Seq<FlatEntry>
    decreases cs,
{
    if cs.len() == 0 {
        Seq::empty()
    } else {
        let prev = flat_nodes(cs.drop_last(), parent, base);
        prev + flat_node(cs.last(), Some(parent), base + prev.len())
    }
}

/// The record at position `i` carries the entry `e`: the node's fields, the
/// file kind, a hyphenated identifier, and a parent link to the identifier
/// of an earlier record.
pub open spec fn card_matches(cards: Seq<MemoryCard>, i: int, e: FlatEntry) -> bool {
    &&& card_fields_match(cards, i, e)
    &&& cards[i].file_source is None
}

/// The record at position `i` carries the entry `e`, whatever its source
/// file.
pub open spec fn card_fields_match(cards: Seq<MemoryCard>, i: int, e: FlatEntry) -> bool {
    let c = cards[i];
    &&& 0 <= i < cards.len()
    &&& c.content@ == e.content
    &&& c.hierarchy_level == e.level
    &&& c.order_index == e.order_index
    &&& c.path@ == e.path
    &&& c.memory_type == MemoryType::File
    &&& c.id@.len() == 36
    &&& match e.parent {
        None => c.parent_id is None,
        Some(j) => 0 <= j < i && c.parent_id is Some && c.parent_id->0@ == cards[j].id@,
    }
}

/// The records from position `base` on carry the entries `fl`.
pub open spec fn cards_match(cards: Seq<MemoryCard>, fl: Seq<FlatEntry>, base: int) -> bool {
    forall|k: int| 0 <= k < fl.len() ==> card_matches(cards, base + k, #[trigger] fl[k])
}

/// Appending records keeps the earlier ones matching.
proof fn lemma_cards_extend(old_cards: Seq<MemoryCard>, new_cards: Seq<MemoryCard>, fl: Seq<FlatEntry>, base: int)
    requires
        cards_match(old_cards, fl, base),
        base + fl.len() <= old_cards.len(),
        old_cards.len() <= new_cards.len(),
        new_cards.take(old_cards.len() as int) == old_cards,
    ensures
        cards_match(new_cards, fl, base),
{
    assert forall|k: int| 0 <= k < fl.len() implies card_matches(new_cards, base + k, #[trigger] fl[k]) by {
        assert(card_matches(old_cards, base + k, fl[k]));
        assert(new_cards[base + k] == new_cards.take(old_cards.len() as int)[base + k]);
        match fl[k].parent {
            Some(j) => {
                assert(new_cards[j] == new_cards.take(old_cards.len() as int)[j]);
            },
            None => {},
        }
    }
}

proof fn lemma_flat_nodes_step(cs: Seq<NodeSpec>, k: int, parent: int, base: int)
    requires
        0 <= k < cs.len(),
    ensures
        flat_nodes(cs.take(k + 1), parent, base) == flat_nodes(cs.take(k), parent, base) + flat_node(
            cs[k],
            Some(parent),
            base + flat_nodes(cs.take(k), parent, base).len(),
        ),
{
    assert(cs.take(k + 1).drop_last() =~= cs.take(k));
}

impl HierarchyNode {
    /// Flatten the tree into memory records in preorder: each record points
    /// at the record of its parent node; the root's record has no parent.
    pub fn flatten(&self) -> (r: Vec<MemoryCard>)
        ensures
            r@.len() == flat_node(self@, None, 0).len(),
            cards_match(r@, flat_node(self@, None, 0), 0),
    {
        let mut memories: Vec<MemoryCard> = Vec::new();
        self.flatten_recursive(None, 0, &mut memories);
        memories
    }

    fn flatten_recursive(&self, parent_id: Option<String>, parent_pos: usize, memories: &mut Vec<MemoryCard>)
        requires
            parent_id is Some ==> parent_pos < old(memories)@.len() && parent_id->0@
                == old(memories)@[parent_pos as int].id@,
        ensures
            final(memories)@.len() == old(memories)@.len() + flat_node(
                self@,
                if parent_id is Some { Some(parent_pos as int) } else { None },
                old(memories)@.len() as int,
            ).len(),
            final(memories)@.take(old(memories)@.len() as int) == old(memories)@,
            cards_match(
                final(memories)@,
                flat_node(
                    self@,
                    if parent_id is Some { Some(parent_pos as int) } else { None },
                    old(memories)@.len() as int,
                ),
                old(memories)@.len() as int,
            ),
        decreases self,
    {
        let ghost parent = if parent_id is Some { Some(parent_pos as int) } else { None };
        let ghost start = memories@;
        let ghost base = start.len() as int;
        let id = crate::ids::new_id();
        let card = MemoryCard {
            id: id.clone(),
            content: self.content.clone(),
            memory_type: MemoryType::File,
            parent_id,
            hierarchy_level: self.level,
            order_index: self.order_index,
            path: self.path.clone(),
            file_source: None,
        };
        let pos = memories.len();
        memories.push(card);
        proof {
            lemma_children_view(*self);
        }
        let ghost kids = self@.children;
        let ghost own = FlatEntry {
            content: self@.content,
            level: self@.level,
            order_index: self@.order_index,
            path: self@.path,
            parent,
        };
        assert(card_matches(memories@, base, own));
        let mut k: usize = 0;
        assert(kids.take(0) =~= Seq::<NodeSpec>::empty());
        while k < self.children.len()
            invariant
                k <= self.children@.len(),
                kids == nodes_view(self.children@),
                pos == base,
                id@ == memories@[base].id@,
                memories@.len() == base + 1 + flat_nodes(kids.take(k as int), base, base + 1).len(),
                memories@.take(base) == start,
                card_matches(memories@, base, own),
                cards_match(memories@, flat_nodes(kids.take(k as int), base, base + 1), base + 1),
            decreases self.children@.len() - k,
        {
            let ghost before = memories@;
            let ghost prev = flat_nodes(kids.take(k as int), base, base + 1);
            let child = &self.children[k];
            assert(kids[k as int] == child@);
            child.flatten_recursive(Some(id.clone()), pos, memories);
            proof {
                lemma_flat_nodes_step(kids, k as int, base, base + 1);
                let added = flat_node(kids[k as int], Some(base), base + 1 + prev.len());
                lemma_cards_extend(before, memories@, prev, base + 1);
                assert(memories@.take(base) =~= before.take(base));
                assert(memories@[base] == memories@.take(before.len() as int)[base]);
                let all = prev + added;
                assert forall|j: int| 0 <= j < all.len() implies card_matches(
                    memories@,
                    base + 1 + j,
                    #[trigger] all[j],
                ) by {
                    if j < prev.len() {
                        assert(all[j] == prev[j]);
                    } else {
                        assert(all[j] == added[j - prev.len()]);
                    }
                }
                assert(cards_match(memories@, all, base + 1));
            }
            k += 1;
        }
        proof {
            assert(kids.take(kids.len() as int) =~= kids);
            let fl = flat_node(self@, parent, base);
            let rest = flat_nodes(kids, base, base + 1);
            assert(fl =~= seq![own] + rest);
            assert forall|j: int| 0 <= j < fl.len() implies card_matches(memories@, base + j, #[trigger] fl[j]) by {
                if j == 0 {
                    assert(fl[0] == own);
                } else {
                    assert(fl[j] == rest[j - 1]);
                }
            }
        }
    }
}


// ---------------------------------------------------------------------------
// JSON
// ---------------------------------------------------------------------------

/// UTF-8 length of a text.
pub open spec fn byte_len(s: Seq<char>) -> nat {
    vstd::utf8::encode_utf8(s).len()
}

/// `{key}: {value}`.
pub open spec fn key_value(key: Seq<char>, value: Seq<char>) -> Seq<char> {
    key + ": "@ + value
}

/// A value as a string: its text when it is a string, its compact JSON
/// otherwise.
pub open spec fn value_text(v: JsonSpec) -> Seq<char> {
    match v {
        JsonSpec::Str(s) => s,
        _ => json_text(v),
    }
}

/// Context of a message object: `key: value` for each member other than
/// `content` and `message` whose value text is non-empty and under 100 bytes.
pub open spec fn message_context(ms: Seq<(Seq<char>, JsonSpec)>) -> Seq<Seq<char>>
    decreases ms.len(),
{
    if ms.len() == 0 {
        Seq::empty()
    } else {
        let prev = message_context(ms.drop_last());
        let (k, v) = ms.last();
        let t = value_text(v);
        if k != "content"@ && k != "message"@ && t.len() > 0 && byte_len(t) < 100 {
            prev.push(key_value(k, t))
        } else {
            prev
        }
    }
}

/// Metadata of a plain object: short strings (under 200 bytes), numbers,
/// booleans, and the item count of arrays under 100 items.
pub open spec fn object_metadata(ms: Seq<(Seq<char>, JsonSpec)>) -> Seq<Seq<char>>
    decreases ms.len(),
{
    if ms.len() == 0 {
        Seq::empty()
    } else {
        let prev = object_metadata(ms.drop_last());
        let (k, v) = ms.last();
        match v {
            JsonSpec::Str(s) => if byte_len(s) < 200 {
                prev.push(key_value(k, s))
            } else {
                prev
            },
            JsonSpec::Number(t, _, _) => prev.push(key_value(k, t)),
            JsonSpec::Bool(b) => prev.push(key_value(k, if b { "true"@ } else { "false"@ })),
            JsonSpec::Array(items) => if items.len() < 100 {
                prev.push(key_value(k, decimal(items.len()) + " items"@))
            } else {
                prev
            },
            _ => prev,
        }
    }
}

/// An object with a `content`, `message` or `role` member reads as a message.
pub open spec fn is_message(ms: Seq<(Seq<char>, JsonSpec)>) -> bool {
    member_get(ms, "content"@) is Some || member_get(ms, "message"@) is Some || member_get(
        ms,
        "role"@,
    ) is Some
}

/// The text of a message: `content`, else `message` when there is no
/// `content` member, if that value is a string; else empty.
pub open spec fn message_text(ms: Seq<(Seq<char>, JsonSpec)>) -> Seq<char> {
    let m = match member_get(ms, "content"@) {
        Some(c) => Some(c),
        None => member_get(ms, "message"@),
    };
    match m {
        Some(x) => match json_str(x) {
            Some(s) => s,
            None => Seq::empty(),
        },
        None => Seq::empty(),
    }
}

/// The message text, followed by its context when there is any.
pub open spec fn message_with_context(ms: Seq<(Seq<char>, JsonSpec)>) -> Seq<char> {
    let ctx = message_context(ms);
    if ctx.len() == 0 {
        message_text(ms)
    } else {
        message_text(ms) + "\n\n[Context: "@ + join(ctx, ", "@) + "]"@
    }
}

/// The nodes a JSON value adds under its parent: a message object is one
/// section node, another object one metadata paragraph (when it has any),
/// an array the nodes of its items numbered from 0, a non-empty string one
/// paragraph; anything else adds nothing.
pub open spec fn json_nodes(v: JsonSpec, parent_path: Seq<char>, order: nat) -> Seq<NodeSpec>
    decreases v,
{
    match v {
        JsonSpec::Object(ms) => if is_message(ms) {
            seq![leaf(message_with_context(ms), HierarchyLevel::Section, order, parent_path + "/item["@ + decimal(order) + "]"@)]
        } else {
            let md = object_metadata(ms);
            if md.len() > 0 {
                seq![leaf(join(md, ", "@), HierarchyLevel::Paragraph, order, parent_path + "/metadata"@)]
            } else {
                Seq::empty()
            }
        },
        JsonSpec::Array(items) => json_item_nodes(items, parent_path),
        JsonSpec::Str(s) => if s.len() > 0 {
            seq![leaf(s, HierarchyLevel::Paragraph, order, parent_path + "/text["@ + decimal(order) + "]"@)]
        } else {
            Seq::empty()
        },
        _ => Seq::empty(),
    }
}

/// The nodes of array items, item `i` numbered `i`.
pub open spec fn json_item_nodes(items: Seq<JsonSpec>, parent_path: Seq<char>) -> Seq<NodeSpec>
    decreases items,
{
    if items.len() == 0 {
        Seq::empty()
    } else {
        json_item_nodes(items.drop_last(), parent_path) + json_nodes(
            items.last(),
            parent_path,
            (items.len() - 1) as nat,
        )
    }
}

/// The tree of a JSON document: the nodes of the parsed value under the
/// root, or the plain-text tree when the content did not parse.
pub open spec fn json_tree(content: Seq<char>, file_name: Seq<char>, parsed: Option<JsonSpec>) -> NodeSpec {
    match parsed {
        Some(v) => document_root(file_name, json_nodes(v, file_name, 0)),
        None => plain_tree(content, file_name),
    }
}

fn key_value_exec(key: &[char], value: &[char]) -> (r: Vec<char>)
    ensures
        r@ == key_value(key@, value@),
{
    let mut v = slice_to_vec(key, 0, key.len());
    assert(v@ =~= key@);
    let sep = to_chars(": ");
    append_chars(&mut v, sep.as_slice());
    append_chars(&mut v, value);
    v
}

fn value_text_exec(v: &JsonValue) -> (r: Vec<char>)
    ensures
        r@ == value_text(v@),
{
    match v {
        JsonValue::String(s) => to_chars(s.as_str()),
        _ => {
            let t = crate::json::to_json_string(v);
            to_chars(t.as_str())
        },
    }
}

fn byte_len_exec(s: &[char]) -> (r: usize)
    ensures
        r == byte_len(s@),
{
    let st = from_chars(s);
    st.as_str().as_bytes().len()
}

fn message_context_exec(members: &Vec<(String, JsonValue)>) -> (r: Vec<Vec<char>>)
    ensures
        views_of(r@) == message_context(member_views(members@)),
{
    let ghost ms = member_views(members@);
    let content = to_chars("content");
    let message = to_chars("message");
    let mut out: Vec<Vec<char>> = Vec::new();
    let mut i: usize = 0;
    assert(ms.take(0) =~= Seq::<(Seq<char>, JsonSpec)>::empty());
    assert(views_of(out@) =~= Seq::<Seq<char>>::empty());
    while i < members.len()
        invariant
            i <= members@.len(),
            ms == member_views(members@),
            content@ == "content"@,
            message@ == "message"@,
            views_of(out@) == message_context(ms.take(i as int)),
        decreases members@.len() - i,
    {
        assert(ms.take(i + 1).drop_last() =~= ms.take(i as int));
        let k = to_chars(members[i].0.as_str());
        let t = value_text_exec(&members[i].1);
        if !crate::text::chars_eq(k.as_slice(), content.as_slice()) && !crate::text::chars_eq(
            k.as_slice(),
            message.as_slice(),
        ) && t.len() > 0 && byte_len_exec(t.as_slice()) < 100 {
            let ghost o0 = views_of(out@);
            let kv = key_value_exec(k.as_slice(), t.as_slice());
            let ghost kvv = kv@;
            out.push(kv);
            assert(views_of(out@) =~= o0.push(kvv));
        }
        i += 1;
    }
    assert(ms.take(members@.len() as int) =~= ms);
    out
}

fn object_metadata_exec(members: &Vec<(String, JsonValue)>) -> (r: Vec<Vec<char>>)
    ensures
        views_of(r@) == object_metadata(member_views(members@)),
{
    let ghost ms = member_views(members@);
    let mut out: Vec<Vec<char>> = Vec::new();
    let mut i: usize = 0;
    assert(ms.take(0) =~= Seq::<(Seq<char>, JsonSpec)>::empty());
    assert(views_of(out@) =~= Seq::<Seq<char>>::empty());
    while i < members.len()
        invariant
            i <= members@.len(),
            ms == member_views(members@),
            views_of(out@) == object_metadata(ms.take(i as int)),
        decreases members@.len() - i,
    {
        assert(ms.take(i + 1).drop_last() =~= ms.take(i as int));
        let k = to_chars(members[i].0.as_str());
        let ghost o0 = views_of(out@);
        let entry: Option<Vec<char>> = match &members[i].1 {
            JsonValue::String(s) => {
                let sv = to_chars(s.as_str());
                if s.as_str().as_bytes().len() < 200 {
                    Some(key_value_exec(k.as_slice(), sv.as_slice()))
                } else {
                    None
                }
            },
            JsonValue::Number(n) => {
                let t = to_chars(n.text.as_str());
                Some(key_value_exec(k.as_slice(), t.as_slice()))
            },
            JsonValue::Bool(b) => {
                let t = if *b { to_chars("true") } else { to_chars("false") };
                Some(key_value_exec(k.as_slice(), t.as_slice()))
            },
            JsonValue::Array(items) => {
                if items.len() < 100 {
                    let mut t: Vec<char> = Vec::new();
                    append_decimal(&mut t, items.len() as u64);
                    let suffix = to_chars(" items");
                    append_chars(&mut t, suffix.as_slice());
                    Some(key_value_exec(k.as_slice(), t.as_slice()))
                } else {
                    None
                }
            },
            _ => None,
        };
        proof {
            lemma_member_view_at(*members, i as int);
        }
        match entry {
            Some(e) => {
                let ghost ev = e@;
                out.push(e);
                assert(views_of(out@) =~= o0.push(ev));
            },
            None => {},
        }
        i += 1;
    }
    assert(ms.take(members@.len() as int) =~= ms);
    out
}

proof fn lemma_member_view_at(members: Vec<(String, JsonValue)>, i: int)
    requires
        0 <= i < members@.len(),
    ensures
        member_views(members@)[i] == (members@[i].0@, json_view(members@[i].1)),
{
}

fn member_present(members: &Vec<(String, JsonValue)>, key: &str) -> (r: bool)
    ensures
        r == member_get(member_views(members@), key@) is Some,
{
    crate::json::find_member(members, key).is_some()
}

fn message_text_exec(members: &Vec<(String, JsonValue)>) -> (r: Vec<char>)
    ensures
        r@ == message_text(member_views(members@)),
{
    let m = match crate::json::find_member(members, "content") {
        Some(i) => Some(i),
        None => crate::json::find_member(members, "message"),
    };
    match m {
        Some(i) => match &members[i].1 {
            JsonValue::String(s) => to_chars(s.as_str()),
            _ => Vec::new(),
        },
        None => Vec::new(),
    }
}

/// Adds the nodes of `v` (see `json_nodes`) to `out`.
fn json_nodes_exec(v: &JsonValue, parent_path: &[char], order: usize, out: &mut Vec<HierarchyNode>)
    ensures
        nodes_view(final(out)@) == nodes_view(old(out)@) + json_nodes(v@, parent_path@, order as nat),
    decreases v,
{
    let ghost o0 = nodes_view(out@);
    match v {
        JsonValue::Object(members) => {
            proof { crate::json::lemma_object_view(*members); }
            if member_present(members, "content") || member_present(members, "message")
                || member_present(members, "role") {
                let mut text = message_text_exec(members);
                let ctx = message_context_exec(members);
                if ctx.len() > 0 {
                    let open = to_chars("\n\n[Context: ");
                    append_chars(&mut text, open.as_slice());
                    let sep = to_chars(", ");
                    let joined = join_chars(&ctx, sep.as_slice());
                    append_chars(&mut text, joined.as_slice());
                    let close = to_chars("]");
                    append_chars(&mut text, close.as_slice());
                }
                let path = indexed(parent_path, "/item[", order);
                push_node(out, make_leaf(text.as_slice(), HierarchyLevel::Section, order, path.as_slice()));
            } else {
                let md = object_metadata_exec(members);
                if md.len() > 0 {
                    let sep = to_chars(", ");
                    let joined = join_chars(&md, sep.as_slice());
                    let mut path = slice_to_vec(parent_path, 0, parent_path.len());
                    assert(path@ =~= parent_path@);
                    let suffix = to_chars("/metadata");
                    append_chars(&mut path, suffix.as_slice());
                    push_node(out, make_leaf(joined.as_slice(), HierarchyLevel::Paragraph, order, path.as_slice()));
                }
            }
            assert(nodes_view(out@) =~= o0 + json_nodes(v@, parent_path@, order as nat));
        },
        JsonValue::Array(items) => {
            proof { crate::json::lemma_array_view(*items); }
            let ghost its = json_views(items@);
            let mut i: usize = 0;
            assert(its.take(0) =~= Seq::<JsonSpec>::empty());
            assert(nodes_view(out@) =~= o0 + json_item_nodes(its.take(0), parent_path@));
            while i < items.len()
                invariant
                    *v == JsonValue::Array(*items),
                    i <= items@.len(),
                    its == json_views(items@),
                    nodes_view(out@) == o0 + json_item_nodes(its.take(i as int), parent_path@),
                decreases items@.len() - i,
            {
                assert(decreases_to!(*items => items[i as int]));
                assert(decreases_to!(*v => v->Array_0));
                assert(its.take(i + 1).drop_last() =~= its.take(i as int));
                json_nodes_exec(&items[i], parent_path, i, out);
                assert(nodes_view(out@) =~= o0 + json_item_nodes(its.take(i + 1), parent_path@));
                i += 1;
            }
            assert(its.take(items@.len() as int) =~= its);
        },
        JsonValue::String(s) => {
            if !s.as_str().is_empty() {
                let c = to_chars(s.as_str());
                let path = indexed(parent_path, "/text[", order);
                push_node(out, make_leaf(c.as_slice(), HierarchyLevel::Paragraph, order, path.as_slice()));
            }
            assert(nodes_view(out@) =~= o0 + json_nodes(v@, parent_path@, order as nat));
        },
        _ => {
            assert(nodes_view(out@) =~= o0 + json_nodes(v@, parent_path@, order as nat));
        },
    }
}

/// Parse a JSON document into a hierarchy; `parsed` is the content as
/// serde_json parsed it, `None` when it is not valid JSON.
pub fn parse_json_document(content: &str, file_name: &str, parsed: Option<&JsonValue>) -> (r: HierarchyNode)
    ensures
        r@ == json_tree(
            content@,
            file_name@,
            match parsed {
                Some(v) => Some(v@),
                None => None,
            },
        ),
{
    match parsed {
        Some(value) => {
            let file = to_chars(file_name);
            let mut root = document_root_exec(file.as_slice());
            let mut children: Vec<HierarchyNode> = Vec::new();
            json_nodes_exec(value, file.as_slice(), 0, &mut children);
            proof { lemma_children_view(root); }
            root.children = children;
            proof {
                lemma_children_view(root);
                assert(nodes_view(children@) =~= Seq::<NodeSpec>::empty() + json_nodes(value@, file@, 0));
                assert(root@ =~= json_tree(content@, file_name@, Some(value@)));
            }
            root
        },
        None => parse_plain_text(content, file_name),
    }
}


// ---------------------------------------------------------------------------
// Any document
// ---------------------------------------------------------------------------

/// The tree of a document of the given kind; unknown kinds read as plain text.
pub open spec fn document_tree(
    content: Seq<char>,
    file_name: Seq<char>,
    file_type: Seq<char>,
    parsed: Option<JsonSpec>,
) -> NodeSpec {
    if file_type == "markdown"@ || file_type == "md"@ {
        markdown_tree(content, file_name)
    } else if file_type == "json"@ || file_type == "jsonl"@ {
        json_tree(content, file_name, parsed)
    } else if file_type == "text"@ || file_type == "txt"@ || file_type == "log"@ || file_type == "rst"@ {
        plain_tree(content, file_name)
    } else if file_type == "html"@ || file_type == "htm"@ {
        html_tree(content, file_name)
    } else if file_type == "xml"@ {
        xml_tree(content, file_name)
    } else if file_type == "code"@ {
        code_tree(content, file_name)
    } else {
        plain_tree(content, file_name)
    }
}

/// Parse a document into a hierarchy tree by its kind; `parsed` is the
/// content as serde_json parsed it (`None` when it is not valid JSON), used
/// for the JSON kinds only.
pub fn parse_document(content: &str, file_name: &str, file_type: &str, parsed: Option<&JsonValue>) -> (r: HierarchyNode)
    ensures
        r@ == document_tree(
            content@,
            file_name@,
            file_type@,
            match parsed {
                Some(v) => Some(v@),
                None => None,
            },
        ),
{
    let eq = |a: &str, b: &str| -> (r: bool)
        ensures r == (a@ == b@)
    { crate::text::str_eq(a, b) };
    if eq(file_type, "markdown") || eq(file_type, "md") {
        parse_markdown(content, file_name)
    } else if eq(file_type, "json") || eq(file_type, "jsonl") {
        parse_json_document(content, file_name, parsed)
    } else if eq(file_type, "text") || eq(file_type, "txt") || eq(file_type, "log") || eq(file_type, "rst") {
        parse_plain_text(content, file_name)
    } else if eq(file_type, "html") || eq(file_type, "htm") {
        parse_html(content, file_name)
    } else if eq(file_type, "xml") {
        parse_xml(content, file_name)
    } else if eq(file_type, "code") {
        parse_code(content, file_name)
    } else {
        parse_plain_text(content, file_name)
    }
}

} // verus!

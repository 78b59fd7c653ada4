//! Stored memory records and the kinds they come in.

use vstd::prelude::*;

verus! {

/// Kind of a stored memory.
#[derive(Debug, Clone, Copy, PartialEq, Eq, Structural)]
pub enum MemoryType {
    Note,
    Fact,
    Task,
    File,
    Conversation,
    Code,
    Decision,
    Event,
    Encounter,
    Experience,
}

/// Level of a memory within the structure of the document it came from.
#[derive(Debug, Clone, Copy, PartialEq, Eq, Structural)]
pub enum HierarchyLevel {
    Document,
    Section,
    Subsection,
    Paragraph,
    Sentence,
}

/// A memory record; hierarchical records point at the record they belong to.
#[derive(Debug)]
pub struct MemoryCard {
    /// Record identifier.
    pub id: String,
    /// Text content.
    pub content: String,
    /// Kind of memory.
    pub memory_type: MemoryType,
    /// The enclosing record, if any.
    pub parent_id: Option<String>,
    /// Level within the source document.
    pub hierarchy_level: HierarchyLevel,
    /// Position among its siblings.
    pub order_index: usize,
    /// Location within the source document.
    pub path: String,
    /// The file the record came from, if known.
    pub file_source: Option<String>,
}

} // verus!

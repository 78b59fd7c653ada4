//! Skills: categories, metadata and where a skill came from. A skill is a
//! reusable capability, told apart from knowledge: "I know SQL" is knowledge,
//! "I can optimise a query" is a skill.

pub mod skill;
pub mod store;
pub mod metrics;
pub mod context;
pub mod executor;

use vstd::prelude::*;

verus! {

/// Skill category.
#[derive(Debug, Clone, Copy, PartialEq, Eq, Structural)]
pub enum SkillCategory {
    FileOperation,
    CodeAnalysis,
    Search,
    Memory,
    Learning,
    Planning,
    Communication,
    Web,
    Database,
    System,
    Custom,
}

/// The snake_case name of a category.
pub open spec fn category_name(c: SkillCategory) -> Seq<char> {
    match c {
        SkillCategory::FileOperation => "file_operation"@,
        SkillCategory::CodeAnalysis => "code_analysis"@,
        SkillCategory::Search => "search"@,
        SkillCategory::Memory => "memory"@,
        SkillCategory::Learning => "learning"@,
        SkillCategory::Planning => "planning"@,
        SkillCategory::Communication => "communication"@,
        SkillCategory::Web => "web"@,
        SkillCategory::Database => "database"@,
        SkillCategory::System => "system"@,
        SkillCategory::Custom => "custom"@,
    }
}

impl SkillCategory {
    /// The snake_case name of the category.
    pub fn as_str(&self) -> (r: &'static str)
        ensures
            r@ == category_name(*self),
    {
        match self {
            SkillCategory::FileOperation => "file_operation",
            SkillCategory::CodeAnalysis => "code_analysis",
            SkillCategory::Search => "search",
            SkillCategory::Memory => "memory",
            SkillCategory::Learning => "learning",
            SkillCategory::Planning => "planning",
            SkillCategory::Communication => "communication",
            SkillCategory::Web => "web",
            SkillCategory::Database => "database",
            SkillCategory::System => "system",
            SkillCategory::Custom => "custom",
        }
    }
}

/// Metadata about a skill.
#[derive(Debug)]
pub struct SkillMetadata {
    pub name: String,
    pub description: String,
    pub category: SkillCategory,
    pub version: String,
    pub author: Option<String>,
    pub tags: Vec<String>,
    pub examples: Vec<String>,
}

/// The views of a list of strings.
pub open spec fn texts(v: Seq<String>) -> Seq<Seq<char>> {
    v.map_values(|t: String| t@)
}

/// What skill metadata holds, as plain values.
pub struct MetadataView {
    pub name: Seq<char>,
    pub description: Seq<char>,
    pub category: SkillCategory,
    pub version: Seq<char>,
    pub author: Option<Seq<char>>,
    pub tags: Seq<Seq<char>>,
    pub examples: Seq<Seq<char>>,
}

impl View for SkillMetadata {
    type V = MetadataView;

    open spec fn view(&self) -> MetadataView {
        MetadataView {
            name: self.name@,
            description: self.description@,
            category: self.category,
            version: self.version@,
            author: match self.author {
                Some(a) => Some(a@),
                None => None,
            },
            tags: texts(self.tags@),
            examples: texts(self.examples@),
        }
    }
}

impl Clone for SkillMetadata {
    fn clone(&self) -> (r: Self)
        ensures
            r@ == self@,
    {
        let tags = self.tags.clone();
        let examples = self.examples.clone();
        assert(tags@ =~= self.tags@);
        assert(examples@ =~= self.examples@);
        SkillMetadata {
            name: self.name.clone(),
            description: self.description.clone(),
            category: self.category,
            version: self.version.clone(),
            author: self.author.clone(),
            tags,
            examples,
        }
    }
}

/// Where a skill came from. The experience a skill was discovered from is
/// named by the text of its identifier.
#[derive(Debug)]
pub enum SkillSource {
    /// Manually registered skill.
    Manual,
    /// Discovered from experience.
    Discovered { experience_id: String },
    /// Learned from an external source.
    Learned { source_name: String },
}

/// Where a skill came from, as plain values.
pub enum SourceView {
    Manual,
    Discovered(Seq<char>),
    Learned(Seq<char>),
}

impl View for SkillSource {
    type V = SourceView;

    open spec fn view(&self) -> SourceView {
        match self {
            SkillSource::Manual => SourceView::Manual,
            SkillSource::Discovered { experience_id } => SourceView::Discovered(experience_id@),
            SkillSource::Learned { source_name } => SourceView::Learned(source_name@),
        }
    }
}

impl Clone for SkillSource {
    fn clone(&self) -> (r: Self)
        ensures
            r@ == self@,
    {
        match self {
            SkillSource::Manual => SkillSource::Manual,
            SkillSource::Discovered { experience_id } => SkillSource::Discovered {
                experience_id: experience_id.clone(),
            },
            SkillSource::Learned { source_name } => SkillSource::Learned {
                source_name: source_name.clone(),
            },
        }
    }
}

/// Counts of skills by origin and mastery. The mean mastery is a
/// floating-point figure and is worked out by the caller from the skills.
#[derive(Debug, Clone, Copy)]
pub struct SkillDiscoveryStats {
    pub total_skills: usize,
    pub manual_skills: usize,
    pub discovered_skills: usize,
    pub learned_skills: usize,
    pub mastered_skills: usize,
}

} // verus!

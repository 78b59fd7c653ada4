//! Inputs of the skills tools and the parsing of skill categories.

pub mod definitions;
pub mod actions;

use vstd::prelude::*;
use crate::skills::registry::{category_name, SkillCategory};
use crate::skills::registry::skill::{Skill, is_ready_spec, prerequisites_met_spec};
use crate::skills::registry::context::ExecutionContext;
use crate::json::JsonValue;
use crate::str_map::StrMap;
use crate::text::{to_lowercase, str_eq, owned};

verus! {

#[derive(Debug)]
pub struct RegisterSkillInput {
    pub name: String,
    pub description: String,
    pub category: String,
    pub version: Option<String>,
    pub author: Option<String>,
    pub tags: Option<Vec<String>>,
    pub examples: Option<Vec<String>>,
}

#[derive(Debug)]
pub struct DiscoverSkillInput {
    pub name: String,
    pub description: String,
    pub category: String,
    pub source_experience_id: String,
}

#[derive(Debug)]
pub struct GetSkillInput {
    pub skill_id: String,
}

#[derive(Debug)]
pub struct ListSkillsInput {
    pub category: Option<String>,
    pub enabled_only: Option<bool>,
    pub limit: Option<u32>,
}

#[derive(Debug)]
pub struct UpdateSkillMasteryInput {
    pub skill_id: String,
    pub success: Option<bool>,
}

#[derive(Debug)]
pub struct GetSkillRecommendationsInput {
    pub limit: Option<u32>,
    pub category: Option<String>,
}

#[derive(Debug)]
pub struct ExecuteSkillInput {
    pub skill_id: String,
    pub task: Option<String>,
    pub parameters: Option<StrMap<JsonValue>>,
    pub time_limit_secs: Option<u64>,
}

#[derive(Debug)]
pub struct GetSkillStatsInput {}

#[derive(Debug)]
pub struct EnableDisableSkillInput {
    pub skill_id: String,
    pub enable: Option<bool>,
}

/// The category a (lowercased) name stands for, accepting a few aliases.
pub open spec fn category_for(s: Seq<char>) -> Option<SkillCategory> {
    if s == "file_operation"@ || s == "fileoperation"@ || s == "file"@ {
        Some(SkillCategory::FileOperation)
    } else if s == "code_analysis"@ || s == "codeanalysis"@ || s == "code"@ {
        Some(SkillCategory::CodeAnalysis)
    } else if s == "search"@ {
        Some(SkillCategory::Search)
    } else if s == "memory"@ {
        Some(SkillCategory::Memory)
    } else if s == "learning"@ {
        Some(SkillCategory::Learning)
    } else if s == "planning"@ {
        Some(SkillCategory::Planning)
    } else if s == "communication"@ {
        Some(SkillCategory::Communication)
    } else if s == "web"@ {
        Some(SkillCategory::Web)
    } else if s == "database"@ || s == "db"@ {
        Some(SkillCategory::Database)
    } else if s == "system"@ {
        Some(SkillCategory::System)
    } else if s == "custom"@ {
        Some(SkillCategory::Custom)
    } else {
        None
    }
}

/// Parsing the name of a category, or that name in upper case (ASCII, as
/// `str::to_uppercase` writes these names), gives the category back:
/// `parse_category` reads an ASCII name by its ASCII lower case. Its
/// contract states the round trip itself.
pub proof fn lemma_category_round_trip(c: SkillCategory)
    ensures
        crate::text::is_ascii_text(category_name(c)),
        crate::text::is_ascii_text(crate::text::upper_ascii(category_name(c))),
        category_for(crate::text::lower_ascii(category_name(c))) == Some(c),
        category_for(crate::text::lower_ascii(crate::text::upper_ascii(category_name(c)))) == Some(c),
{
    let n = category_name(c);
    reveal_strlit("file_operation");
    reveal_strlit("code_analysis");
    reveal_strlit("search");
    reveal_strlit("memory");
    reveal_strlit("learning");
    reveal_strlit("planning");
    reveal_strlit("communication");
    reveal_strlit("web");
    reveal_strlit("database");
    reveal_strlit("system");
    reveal_strlit("custom");
    reveal_strlit("fileoperation");
    reveal_strlit("file");
    reveal_strlit("codeanalysis");
    reveal_strlit("code");
    reveal_strlit("db");
    assert(crate::text::lower_ascii(n) =~= n);
    assert(crate::text::lower_ascii(crate::text::upper_ascii(n)) =~= n);
    match c {
        SkillCategory::FileOperation => {},
        SkillCategory::CodeAnalysis => {
            assert(n[0] != "file_operation"@[0]);
            assert(n[0] != "fileoperation"@[0]);
            assert(n[0] != "file"@[0]);
        },
        SkillCategory::Search => {
            assert(n.len() != "file_operation"@.len());
            assert(n[0] != "fileoperation"@[0] && n[0] != "file"@[0] && n[0] != "code_analysis"@[0]);
            assert(n[0] != "codeanalysis"@[0] && n[0] != "code"@[0]);
        },
        SkillCategory::Memory => {
            assert(n[0] != "file_operation"@[0] && n[0] != "fileoperation"@[0] && n[0] != "file"@[0]);
            assert(n[0] != "code_analysis"@[0] && n[0] != "codeanalysis"@[0] && n[0] != "code"@[0]);
            assert(n[0] != "search"@[0]);
        },
        SkillCategory::Learning => {
            assert(n[0] != "file_operation"@[0] && n[0] != "fileoperation"@[0] && n[0] != "file"@[0]);
            assert(n[0] != "code_analysis"@[0] && n[0] != "codeanalysis"@[0] && n[0] != "code"@[0]);
            assert(n[0] != "search"@[0] && n[0] != "memory"@[0]);
        },
        SkillCategory::Planning => {
            assert(n[0] != "file_operation"@[0] && n[0] != "fileoperation"@[0] && n[0] != "file"@[0]);
            assert(n[0] != "code_analysis"@[0] && n[0] != "codeanalysis"@[0] && n[0] != "code"@[0]);
            assert(n[0] != "search"@[0] && n[0] != "memory"@[0] && n[0] != "learning"@[0]);
        },
        SkillCategory::Communication => {
            assert(n[0] != "file_operation"@[0] && n[0] != "fileoperation"@[0] && n[0] != "file"@[0]);
            assert(n[2] != "code_analysis"@[2] && n[2] != "codeanalysis"@[2] && n[2] != "code"@[2]);
            assert(n[0] != "search"@[0] && n[0] != "memory"@[0] && n[0] != "learning"@[0]);
            assert(n[0] != "planning"@[0]);
        },
        SkillCategory::Web => {
            assert(n[0] != "file_operation"@[0] && n[0] != "fileoperation"@[0] && n[0] != "file"@[0]);
            assert(n[0] != "code_analysis"@[0] && n[0] != "codeanalysis"@[0] && n[0] != "code"@[0]);
            assert(n[0] != "search"@[0] && n[0] != "memory"@[0] && n[0] != "learning"@[0]);
            assert(n[0] != "planning"@[0] && n[0] != "communication"@[0]);
        },
        SkillCategory::Database => {
            assert(n[0] != "file_operation"@[0] && n[0] != "fileoperation"@[0] && n[0] != "file"@[0]);
            assert(n[0] != "code_analysis"@[0] && n[0] != "codeanalysis"@[0] && n[0] != "code"@[0]);
            assert(n[0] != "search"@[0] && n[0] != "memory"@[0] && n[0] != "learning"@[0]);
            assert(n[0] != "planning"@[0] && n[0] != "communication"@[0] && n[0] != "web"@[0]);
        },
        SkillCategory::System => {
            assert(n[0] != "file_operation"@[0] && n[0] != "fileoperation"@[0] && n[0] != "file"@[0]);
            assert(n[0] != "code_analysis"@[0] && n[0] != "codeanalysis"@[0] && n[0] != "code"@[0]);
            assert(n[1] != "search"@[1] && n[0] != "memory"@[0] && n[0] != "learning"@[0]);
            assert(n[0] != "planning"@[0] && n[0] != "communication"@[0] && n[0] != "web"@[0]);
            assert(n[0] != "database"@[0] && n[0] != "db"@[0]);
        },
        SkillCategory::Custom => {
            assert(n[0] != "file_operation"@[0] && n[0] != "fileoperation"@[0] && n[0] != "file"@[0]);
            assert(n[1] != "code_analysis"@[1] && n[1] != "codeanalysis"@[1] && n[1] != "code"@[1]);
            assert(n[0] != "search"@[0] && n[0] != "memory"@[0] && n[0] != "learning"@[0]);
            assert(n[0] != "planning"@[0] && n[1] != "communication"@[1] && n[0] != "web"@[0]);
            assert(n[0] != "database"@[0] && n[0] != "db"@[0] && n[0] != "system"@[0]);
        },
    }
}

/// Parse skill category from string, ignoring case. An unknown name is an
/// error whose message names it.
pub fn parse_category(category: &str) -> (r: Result<SkillCategory, String>)
    ensures
        match category_for(crate::text::spec_to_lowercase(category@)) {
            Some(c) => r == Ok::<SkillCategory, String>(c),
            None => r matches Err(m) && m@ == "Unknown skill category: "@ + category@,
        },
        crate::text::is_ascii_text(category@) ==> crate::text::spec_to_lowercase(category@)
            == crate::text::lower_ascii(category@),
        forall|c: SkillCategory|
            #![trigger category_name(c)]
            category@ == category_name(c) || category@ == crate::text::upper_ascii(category_name(c))
                ==> r == Ok::<SkillCategory, String>(c),
{
    let lower = to_lowercase(category);
    let l = lower.as_str();
    proof {
        assert forall|c: SkillCategory|
            #![trigger category_name(c)]
            category@ == category_name(c) || category@ == crate::text::upper_ascii(category_name(c))
                implies category_for(crate::text::spec_to_lowercase(category@)) == Some(c) by {
            lemma_category_round_trip(c);
        }
    }
    if str_eq(l, "file_operation") || str_eq(l, "fileoperation") || str_eq(l, "file") {
        Ok(SkillCategory::FileOperation)
    } else if str_eq(l, "code_analysis") || str_eq(l, "codeanalysis") || str_eq(l, "code") {
        Ok(SkillCategory::CodeAnalysis)
    } else if str_eq(l, "search") {
        Ok(SkillCategory::Search)
    } else if str_eq(l, "memory") {
        Ok(SkillCategory::Memory)
    } else if str_eq(l, "learning") {
        Ok(SkillCategory::Learning)
    } else if str_eq(l, "planning") {
        Ok(SkillCategory::Planning)
    } else if str_eq(l, "communication") {
        Ok(SkillCategory::Communication)
    } else if str_eq(l, "web") {
        Ok(SkillCategory::Web)
    } else if str_eq(l, "database") || str_eq(l, "db") {
        Ok(SkillCategory::Database)
    } else if str_eq(l, "system") {
        Ok(SkillCategory::System)
    } else if str_eq(l, "custom") {
        Ok(SkillCategory::Custom)
    } else {
        let mut m = owned("Unknown skill category: ");
        m.append(category);
        Err(m)
    }
}

/// Why a skill was not executed.
#[derive(Debug)]
pub enum ExecuteSkillError {
    /// No skill has the requested id.
    NotFound(String),
    /// The skill is disabled.
    Disabled,
    /// The skill's mastery is below the ready level; it carries the mastery.
    NotReady { mastery_bits: u32 },
    /// A prerequisite has not been learned; it carries the skill's name.
    PrerequisitesNotMet(String),
}

/// Check that a skill may be executed and build the context it runs with:
/// the task given, else the skill's description; the parameters given,
/// else none; the time limit given; no working memory or knowledge. A
/// skill is refused, in this order, when it is missing, disabled, not
/// ready, or has a prerequisite (no skill counts as learned here).
pub fn prepare_skill_execution(skill: Option<Skill>, input: ExecuteSkillInput) -> (r: Result<
    ExecutionContext,
    ExecuteSkillError,
>)
    ensures
        match skill {
            None => (r matches Err(ExecuteSkillError::NotFound(id)) && id@ == input.skill_id@),
            Some(s) => if !s.enabled {
                r matches Err(ExecuteSkillError::Disabled)
            } else if !is_ready_spec(s@) {
                (r matches Err(ExecuteSkillError::NotReady { mastery_bits }) && mastery_bits
                    == s.mastery_bits)
            } else if !prerequisites_met_spec(s@.prerequisites, Seq::empty()) {
                (r matches Err(ExecuteSkillError::PrerequisitesNotMet(name)) && name@
                    == s@.metadata.name)
            } else {
                (r matches Ok(c) && c.task@ == (match input.task {
                    Some(t) => t@,
                    None => s@.metadata.description,
                }) && c.parameters@ == (match input.parameters {
                    Some(p) => p@,
                    None => Seq::empty(),
                }) && c.working_memory@.len() == 0 && c.knowledge_context@.len() == 0
                    && c.time_limit_secs == input.time_limit_secs)
            },
        },
{
    let s = match skill {
        Some(s) => s,
        None => return Err(ExecuteSkillError::NotFound(input.skill_id)),
    };
    if !s.enabled {
        return Err(ExecuteSkillError::Disabled);
    }
    if !s.is_ready() {
        return Err(ExecuteSkillError::NotReady { mastery_bits: s.mastery_bits });
    }
    let learned: Vec<String> = Vec::new();
    if !s.prerequisites_met(learned.as_slice()) {
        assert(crate::skills::registry::texts(learned@) =~= Seq::empty());
        return Err(ExecuteSkillError::PrerequisitesNotMet(s.metadata.name));
    }
    assert(crate::skills::registry::texts(learned@) =~= Seq::empty());
    let task = match input.task {
        Some(t) => t,
        None => s.metadata.description,
    };
    let mut c = ExecutionContext::new(task);
    if let Some(p) = input.parameters {
        c.parameters = p;
    }
    c.time_limit_secs = input.time_limit_secs;
    Ok(c)
}

/// The note that a simulated execution reports for a skill's category.
pub fn simulated_execution_note(category: SkillCategory) -> (r: &'static str)
    ensures
        r@ == match category {
            SkillCategory::FileOperation => "Simulated file operation execution"@,
            SkillCategory::Search => "Simulated search execution"@,
            SkillCategory::CodeAnalysis => "Simulated code analysis execution"@,
            _ => "Skill execution simulated"@,
        },
{
    match category {
        SkillCategory::FileOperation => "Simulated file operation execution",
        SkillCategory::Search => "Simulated search execution",
        SkillCategory::CodeAnalysis => "Simulated code analysis execution",
        _ => "Skill execution simulated",
    }
}

} // verus!

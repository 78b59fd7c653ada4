//! Running skills: what an execution does with a skill of the registry, and
//! the execution metrics kept for each skill.
//!
//! Timing and the new mastery of a skill are floating-point or clock
//! readings; the caller measures them and hands them in.

use vstd::prelude::*;
use crate::json::{JsonSpec, JsonValue};
use crate::skills::registry::{category_name, SkillCategory};
use crate::skills::registry::context::ExecutionContext;
use crate::skills::registry::metrics::{after_execution, can_record_execution, ExecutionMetrics};
use crate::skills::registry::skill::{can_record, prerequisites_met_spec, Skill, SkillView, after_usage};
use crate::skills::registry::store::{first_where, has_id, SkillRegistry};
use crate::str_map::{kv_insert, kv_remove, lookup, lemma_insert_lookup, StrMap};
use crate::text::owned;
use crate::tools::plugins::{json_object, json_string, member};

verus! {

/// The category named in a simulated execution's output: the snake_case
/// name for the first six categories, the variant's own name for the rest.
pub open spec fn simulated_category_label(c: SkillCategory) -> Seq<char> {
    match c {
        SkillCategory::Communication => "Communication"@,
        SkillCategory::Web => "Web"@,
        SkillCategory::Database => "Database"@,
        SkillCategory::System => "System"@,
        SkillCategory::Custom => "Custom"@,
        _ => category_name(c),
    }
}

/// The output of a simulated execution of a task.
pub open spec fn simulated_output(c: SkillCategory, task: Seq<char>) -> JsonSpec {
    JsonSpec::Object(
        seq![
            ("task"@, JsonSpec::Str(task)),
            ("category"@, JsonSpec::Str(simulated_category_label(c))),
            ("status"@, JsonSpec::Str("simulated"@)),
        ],
    )
}

fn category_label(c: SkillCategory) -> (r: &'static str)
    ensures
        r@ == simulated_category_label(c),
{
    match c {
        SkillCategory::Communication => "Communication",
        SkillCategory::Web => "Web",
        SkillCategory::Database => "Database",
        SkillCategory::System => "System",
        SkillCategory::Custom => "Custom",
        _ => c.as_str(),
    }
}

/// What executing a skill comes to.
#[derive(Debug)]
pub enum ExecutionStep {
    /// A prerequisite is missing: the execution fails with this message.
    Refused { skill: Skill, message: String },
    /// The skill runs and gives this output.
    Run { skill: Skill, output: JsonValue },
}

/// Runs skills of a registry and keeps their execution metrics by skill
/// identifier.
pub struct SkillExecutor {
    registry: SkillRegistry,
    metrics: StrMap<ExecutionMetrics>,
}

impl SkillExecutor {
    /// The skills of the registry.
    pub closed spec fn skills(&self) -> Seq<SkillView> {
        self.registry@
    }

    /// The metrics kept, by skill identifier, in the order first recorded.
    pub closed spec fn metrics_entries(&self) -> Seq<(Seq<char>, ExecutionMetrics)> {
        self.metrics@
    }

    /// The metrics of a skill before an execution: those kept, else none.
    pub open spec fn metrics_before(&self, skill_id: Seq<char>) -> ExecutionMetrics {
        match lookup(self.metrics_entries(), skill_id) {
            Some(m) => m,
            None => ExecutionMetrics::new_spec(),
        }
    }

    /// An executor over a registry, with no metrics yet.
    pub fn new(registry: SkillRegistry) -> (e: Self)
        ensures
            e.skills() == registry@,
            e.metrics_entries() == Seq::<(Seq<char>, ExecutionMetrics)>::empty(),
    {
        SkillExecutor { registry, metrics: StrMap::new() }
    }

    /// The registry.
    pub fn registry(&self) -> (r: &SkillRegistry)
        ensures
            r@ == self.skills(),
    {
        &self.registry
    }

    /// Give the registry back, its metrics dropped.
    pub fn into_registry(self) -> (r: SkillRegistry)
        ensures
            r@ == self.skills(),
    {
        self.registry
    }

    /// What executing a skill with a context comes to: "Skill not found:
    /// <id>" when there is no such skill; refused when it has a prerequisite
    /// (none counts as learned here); else a simulated run.
    pub fn prepare(&self, skill_id: &str, context: &ExecutionContext) -> (r: Result<
        ExecutionStep,
        String,
    >)
        ensures
            match first_where(self.skills(), has_id(skill_id@)) {
                None => (r matches Err(m) && m@ == "Skill not found: "@ + skill_id@),
                Some(i) => if !prerequisites_met_spec(self.skills()[i].prerequisites, Seq::empty()) {
                    (r matches Ok(ExecutionStep::Refused { skill, message }) && skill@
                        == self.skills()[i] && message@ == "Prerequisites not met for skill: "@
                        + self.skills()[i].metadata.name)
                } else {
                    (r matches Ok(ExecutionStep::Run { skill, output }) && skill@
                        == self.skills()[i] && output@ == simulated_output(
                        self.skills()[i].metadata.category,
                        context.task@,
                    ))
                },
            },
    {
        let skill = match self.registry.get(skill_id) {
            Some(s) => s,
            None => {
                let mut m = owned("Skill not found: ");
                m.append(skill_id);
                return Err(m);
            },
        };
        let learned: Vec<String> = Vec::new();
        assert(crate::skills::registry::texts(learned@) =~= Seq::empty());
        if !skill.prerequisites_met(learned.as_slice()) {
            let mut m = owned("Prerequisites not met for skill: ");
            m.append(skill.metadata.name.as_str());
            return Ok(ExecutionStep::Refused { skill, message: m });
        }
        let mut members: Vec<(String, JsonValue)> = Vec::new();
        members.push(member("task", json_string(context.task.as_str())));
        members.push(member("category", json_string(category_label(skill.metadata.category))));
        members.push(member("status", json_string("simulated")));
        let output = json_object(members);
        assert(output@ == simulated_output(skill@.metadata.category, context.task@)) by {
            assert(crate::json::member_views(members@) =~= seq![
                ("task"@, JsonSpec::Str(context.task@)),
                ("category"@, JsonSpec::Str(simulated_category_label(skill@.metadata.category))),
                ("status"@, JsonSpec::Str("simulated"@)),
            ]);
        }
        Ok(ExecutionStep::Run { skill, output })
    }

    /// Record an execution of a skill: its use in the registry (with the new
    /// mastery worked out by the caller), and its metrics, which start empty
    /// for a skill not seen before.
    pub fn record_execution(&mut self, skill_id: &str, success: bool, duration_ms: u64, mastery_bits: u32)
        requires
            match first_where(old(self).skills(), has_id(skill_id@)) {
                Some(i) => can_record(old(self).skills()[i]),
                None => true,
            },
            can_record_execution(old(self).metrics_before(skill_id@), duration_ms),
        ensures
            match first_where(old(self).skills(), has_id(skill_id@)) {
                Some(i) => {
                    &&& final(self).skills().len() == old(self).skills().len()
                    &&& forall|j: int|
                        0 <= j < old(self).skills().len() && j != i ==> final(self).skills()[j]
                            == old(self).skills()[j]
                    &&& after_usage(
                        old(self).skills()[i],
                        final(self).skills()[i],
                        success,
                        mastery_bits,
                    )
                },
                None => final(self).skills() == old(self).skills(),
            },
            (lookup(final(self).metrics_entries(), skill_id@) matches Some(m)
                && final(self).metrics_entries() == kv_insert(old(self).metrics_entries(), skill_id@, m)
                && after_execution(old(self).metrics_before(skill_id@), m, success, duration_ms)),
    {
        let _ = self.registry.record_usage(skill_id, success, mastery_bits);
        let mut m = match self.metrics.get(skill_id) {
            Some(m) => *m,
            None => ExecutionMetrics::new(),
        };
        if success {
            m.record_success(duration_ms);
        } else {
            m.record_failure(duration_ms);
        }
        let ghost before = self.metrics@;
        self.metrics.insert(owned(skill_id), m);
        proof {
            lemma_insert_lookup(before, skill_id@, m);
        }
    }

    /// The metrics of a skill, if any execution of it was recorded.
    pub fn get_execution_metrics(&self, skill_id: &str) -> (r: Option<ExecutionMetrics>)
        ensures
            r == lookup(self.metrics_entries(), skill_id@),
    {
        match self.metrics.get(skill_id) {
            Some(m) => Some(*m),
            None => None,
        }
    }

    /// All metrics, by skill identifier.
    pub fn get_all_metrics(&self) -> (r: StrMap<ExecutionMetrics>)
        ensures
            r@ == self.metrics_entries(),
    {
        self.metrics.copy()
    }

    /// Forget the metrics of a skill.
    pub fn clear_metrics(&mut self, skill_id: &str)
        ensures
            final(self).metrics_entries() == kv_remove(old(self).metrics_entries(), skill_id@),
            lookup(final(self).metrics_entries(), skill_id@) is None,
            final(self).skills() == old(self).skills(),
    {
        let _ = self.metrics.remove(skill_id);
    }

    /// Forget all metrics.
    pub fn clear_all_metrics(&mut self)
        ensures
            final(self).metrics_entries() == Seq::<(Seq<char>, ExecutionMetrics)>::empty(),
            final(self).skills() == old(self).skills(),
    {
        self.metrics.clear();
    }
}

} // verus!

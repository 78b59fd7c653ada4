//! Strategic objectives, strategic updates, strategic evaluation and
//! strategic feedback.

use vstd::prelude::*;
use crate::str_map::{StrMap, kv_insert, lookup, values_of, key_pos};
use crate::ids::now_timestamp;
use crate::text::{owned, str_eq};

verus! {

/// Strategic objective categories.
#[derive(Debug, Clone, Copy, PartialEq, Eq, Structural, Hash)]
pub enum StrategicCategory {
    /// System reliability improvement.
    SystemReliability,
    /// Memory retrieval improvement.
    MemoryRetrieval,
    /// Inference efficiency improvement.
    InferenceEfficiency,
    /// Tool capability expansion.
    ToolCapability,
    /// Hardware utilization improvement.
    HardwareUtilization,
    /// Repeated failure reduction.
    FailureReduction,
    /// Research capability development.
    ResearchCapability,
    /// Planning reliability improvement.
    PlanningReliability,
}

/// The label of a category: the variant's name.
pub open spec fn category_label(c: StrategicCategory) -> Seq<char> {
    match c {
        StrategicCategory::SystemReliability => "SystemReliability"@,
        StrategicCategory::MemoryRetrieval => "MemoryRetrieval"@,
        StrategicCategory::InferenceEfficiency => "InferenceEfficiency"@,
        StrategicCategory::ToolCapability => "ToolCapability"@,
        StrategicCategory::HardwareUtilization => "HardwareUtilization"@,
        StrategicCategory::FailureReduction => "FailureReduction"@,
        StrategicCategory::ResearchCapability => "ResearchCapability"@,
        StrategicCategory::PlanningReliability => "PlanningReliability"@,
    }
}

impl StrategicCategory {
    /// Return category label.
    pub fn label(&self) -> (r: &'static str)
        ensures
            r@ == category_label(*self),
    {
        match self {
            StrategicCategory::SystemReliability => "SystemReliability",
            StrategicCategory::MemoryRetrieval => "MemoryRetrieval",
            StrategicCategory::InferenceEfficiency => "InferenceEfficiency",
            StrategicCategory::ToolCapability => "ToolCapability",
            StrategicCategory::HardwareUtilization => "HardwareUtilization",
            StrategicCategory::FailureReduction => "FailureReduction",
            StrategicCategory::ResearchCapability => "ResearchCapability",
            StrategicCategory::PlanningReliability => "PlanningReliability",
        }
    }
}

/// A strategic objective defining a long-term improvement goal.
#[derive(Debug)]
pub struct StrategicObjective {
    /// Objective identifier.
    pub id: String,
    /// Objective name.
    pub name: String,
    /// Category.
    pub category: StrategicCategory,
    /// Description.
    pub description: String,
    /// Priority (higher = more important).
    pub priority: u32,
    /// Status (active, completed, suspended, failed).
    pub status: String,
    /// Created timestamp.
    pub created_at: i64,
    /// Updated timestamp.
    pub updated_at: i64,
    /// Related capabilities.
    pub related_capabilities: Vec<String>,
}

/// The capability texts of an objective.
pub open spec fn capability_views(o: StrategicObjective) -> Seq<Seq<char>> {
    o.related_capabilities@.map_values(|c: String| c@)
}

/// The capability list after adding `c`: unchanged when `c` is listed,
/// else `c` appended.
pub open spec fn with_capability(caps: Seq<Seq<char>>, c: Seq<char>) -> Seq<Seq<char>> {
    if caps.contains(c) {
        caps
    } else {
        caps.push(c)
    }
}

/// Adding a capability keeps the list free of repeats, and adding it a
/// second time changes nothing.
pub proof fn lemma_add_capability_idempotent(caps: Seq<Seq<char>>, c: Seq<char>)
    ensures
        caps.no_duplicates() ==> with_capability(caps, c).no_duplicates(),
        with_capability(with_capability(caps, c), c) == with_capability(caps, c),
{
    if !caps.contains(c) {
        assert(caps.push(c)[caps.len() as int] == c);
        assert(caps.push(c).contains(c));
        if caps.no_duplicates() {
            assert forall|i: int, j: int|
                0 <= i < caps.push(c).len() && 0 <= j < caps.push(c).len() && i != j implies caps.push(
                c,
            )[i] != caps.push(c)[j] by {
                if i == caps.len() {
                    assert(caps.push(c)[j] == caps[j]);
                    assert(caps[j] != c);
                } else if j == caps.len() {
                    assert(caps.push(c)[i] == caps[i]);
                    assert(caps[i] != c);
                } else {
                    assert(caps.push(c)[i] == caps[i] && caps.push(c)[j] == caps[j]);
                }
            }
        }
    }
}

impl StrategicObjective {
    /// Create a new active strategic objective with no related capabilities.
    pub fn new(
        id: &str,
        name: &str,
        category: StrategicCategory,
        description: &str,
        priority: u32,
    ) -> (o: Self)
        ensures
            o.id@ == id@,
            o.name@ == name@,
            o.category == category,
            o.description@ == description@,
            o.priority == priority,
            o.status@ == "active"@,
            o.related_capabilities@.len() == 0,
    {
        StrategicObjective {
            id: owned(id),
            name: owned(name),
            category,
            description: owned(description),
            priority,
            status: owned("active"),
            created_at: now_timestamp(),
            updated_at: now_timestamp(),
            related_capabilities: Vec::new(),
        }
    }

    /// Mark as completed.
    pub fn complete(&mut self)
        ensures
            final(self).status@ == "completed"@,
            final(self).id == old(self).id,
            final(self).name == old(self).name,
            final(self).category == old(self).category,
            final(self).description == old(self).description,
            final(self).priority == old(self).priority,
            final(self).created_at == old(self).created_at,
            final(self).related_capabilities == old(self).related_capabilities,
    {
        self.status = owned("completed");
        self.updated_at = now_timestamp();
    }

    /// Mark as suspended.
    pub fn suspend(&mut self)
        ensures
            final(self).status@ == "suspended"@,
            final(self).id == old(self).id,
            final(self).name == old(self).name,
            final(self).category == old(self).category,
            final(self).description == old(self).description,
            final(self).priority == old(self).priority,
            final(self).created_at == old(self).created_at,
            final(self).related_capabilities == old(self).related_capabilities,
    {
        self.status = owned("suspended");
        self.updated_at = now_timestamp();
    }

    /// Add related capability, unless it is already listed.
    pub fn add_capability(&mut self, capability: &str)
        ensures
            capability_views(*final(self)) == with_capability(capability_views(*old(self)), capability@),
            final(self).id == old(self).id,
            final(self).name == old(self).name,
            final(self).description == old(self).description,
            final(self).status == old(self).status,
            final(self).category == old(self).category,
            final(self).priority == old(self).priority,
            final(self).created_at == old(self).created_at,
            final(self).updated_at == old(self).updated_at,
    {
        let mut i: usize = 0;
        let ghost caps = capability_views(*self);
        while i < self.related_capabilities.len()
            invariant
                i <= self.related_capabilities@.len(),
                caps == capability_views(*self),
                forall|j: int| 0 <= j < i ==> caps[j] != capability@,
            decreases self.related_capabilities.len() - i,
        {
            if str_eq(self.related_capabilities[i].as_str(), capability) {
                assert(caps[i as int] == capability@);
                return;
            }
            i += 1;
        }
        self.related_capabilities.push(owned(capability));
        assert(capability_views(*self) =~= caps.push(capability@));
    }
}

/// A strategic update describing a change to apply.
#[derive(Debug)]
pub struct StrategicUpdate {
    /// Update identifier.
    pub id: String,
    /// Related objective ID.
    pub objective_id: String,
    /// Update action (create_memory, update_confidence, strengthen_relationship, etc.).
    pub action: String,
    /// Target resource.
    pub target: String,
    /// Update details.
    pub details: String,
    /// Status.
    pub status: String,
    /// Created timestamp.
    pub created_at: i64,
    /// Applied timestamp (if completed).
    pub applied_at: Option<i64>,
}

impl Clone for StrategicUpdate {
    fn clone(&self) -> (r: Self)
        ensures
            r == *self,
    {
        StrategicUpdate {
            id: self.id.clone(),
            objective_id: self.objective_id.clone(),
            action: self.action.clone(),
            target: self.target.clone(),
            details: self.details.clone(),
            status: self.status.clone(),
            created_at: self.created_at,
            applied_at: self.applied_at,
        }
    }
}

/// The update after being applied: status "applied" and an applied time.
pub open spec fn applied(old: StrategicUpdate, new: StrategicUpdate) -> bool {
    &&& new.status@ == "applied"@
    &&& new.applied_at is Some
    &&& new.id == old.id
    &&& new.objective_id == old.objective_id
    &&& new.action == old.action
    &&& new.target == old.target
    &&& new.details == old.details
    &&& new.created_at == old.created_at
}

impl StrategicUpdate {
    /// Create a new pending strategic update.
    pub fn new(id: &str, objective_id: &str, action: &str, target: &str, details: &str) -> (u: Self)
        ensures
            u.id@ == id@,
            u.objective_id@ == objective_id@,
            u.action@ == action@,
            u.target@ == target@,
            u.details@ == details@,
            u.status@ == "pending"@,
            u.applied_at is None,
    {
        StrategicUpdate {
            id: owned(id),
            objective_id: owned(objective_id),
            action: owned(action),
            target: owned(target),
            details: owned(details),
            status: owned("pending"),
            created_at: now_timestamp(),
            applied_at: None,
        }
    }

    /// Apply the update.
    pub fn apply(&mut self)
        ensures
            applied(*old(self), *final(self)),
    {
        self.status = owned("applied");
        self.applied_at = Some(now_timestamp());
    }

    /// Fail the update: only the status changes.
    pub fn fail(&mut self)
        ensures
            final(self).status@ == "failed"@,
            final(self).id == old(self).id,
            final(self).objective_id == old(self).objective_id,
            final(self).action == old(self).action,
            final(self).target == old(self).target,
            final(self).details == old(self).details,
            final(self).created_at == old(self).created_at,
            final(self).applied_at == old(self).applied_at,
    {
        self.status = owned("failed");
    }
}

/// Strategic evaluation assessing progress toward objectives.
///
/// The progress score is an `f32` in `[0.0, 1.0]`, carried as its bit
/// pattern (`f32::to_bits`); clamping it is floating-point work done by the
/// caller.
#[derive(Debug)]
pub struct StrategicEvaluation {
    /// Objective ID.
    pub objective_id: String,
    /// Progress score (0.0 to 1.0), as `f32` bits.
    pub progress_score_bits: u32,
    /// Evidence count.
    pub evidence_count: u32,
    /// Success indicators.
    pub success_indicators: Vec<String>,
    /// Failure indicators.
    pub failure_indicators: Vec<String>,
    /// Recommendations.
    pub recommendations: Vec<String>,
    /// Evaluated timestamp.
    pub evaluated_at: i64,
}

impl StrategicEvaluation {
    /// Create a new evaluation with no evidence.
    pub fn new(objective_id: &str, progress_score_bits: u32) -> (e: Self)
        ensures
            e.objective_id@ == objective_id@,
            e.progress_score_bits == progress_score_bits,
            e.evidence_count == 0,
            e.success_indicators@.len() == 0,
            e.failure_indicators@.len() == 0,
            e.recommendations@.len() == 0,
    {
        StrategicEvaluation {
            objective_id: owned(objective_id),
            progress_score_bits,
            evidence_count: 0,
            success_indicators: Vec::new(),
            failure_indicators: Vec::new(),
            recommendations: Vec::new(),
            evaluated_at: now_timestamp(),
        }
    }

    /// Add success indicator; it counts as one more piece of evidence.
    pub fn add_success(&mut self, indicator: &str)
        requires
            old(self).evidence_count < u32::MAX,
        ensures
            final(self).success_indicators@.drop_last() == old(self).success_indicators@,
            final(self).success_indicators@.len() == old(self).success_indicators@.len() + 1,
            final(self).success_indicators@.last()@ == indicator@,
            final(self).evidence_count == old(self).evidence_count + 1,
            final(self).failure_indicators == old(self).failure_indicators,
            final(self).recommendations == old(self).recommendations,
            final(self).progress_score_bits == old(self).progress_score_bits,
    {
        self.success_indicators.push(owned(indicator));
        self.evidence_count = self.evidence_count + 1;
    }

    /// Add failure indicator; it counts as one more piece of evidence.
    pub fn add_failure(&mut self, indicator: &str)
        requires
            old(self).evidence_count < u32::MAX,
        ensures
            final(self).failure_indicators@.drop_last() == old(self).failure_indicators@,
            final(self).failure_indicators@.len() == old(self).failure_indicators@.len() + 1,
            final(self).failure_indicators@.last()@ == indicator@,
            final(self).evidence_count == old(self).evidence_count + 1,
            final(self).success_indicators == old(self).success_indicators,
            final(self).recommendations == old(self).recommendations,
            final(self).progress_score_bits == old(self).progress_score_bits,
    {
        self.failure_indicators.push(owned(indicator));
        self.evidence_count = self.evidence_count + 1;
    }

    /// Add recommendation; evidence is unchanged.
    pub fn add_recommendation(&mut self, recommendation: &str)
        ensures
            final(self).recommendations@.drop_last() == old(self).recommendations@,
            final(self).recommendations@.len() == old(self).recommendations@.len() + 1,
            final(self).recommendations@.last()@ == recommendation@,
            final(self).evidence_count == old(self).evidence_count,
            final(self).success_indicators == old(self).success_indicators,
            final(self).failure_indicators == old(self).failure_indicators,
    {
        self.recommendations.push(owned(recommendation));
    }
}

/// Strategic feedback connecting execution/planning to strategic objectives.
///
/// The impact score is an `f32` in `[-1.0, 1.0]`, carried as its bit pattern.
#[derive(Debug)]
pub struct StrategicFeedback {
    /// Source subsystem (execution, planning, learning, etc.).
    pub source: String,
    /// Related objective ID.
    pub objective_id: String,
    /// Feedback type (positive, negative, neutral).
    pub feedback_type: String,
    /// Feedback content.
    pub content: String,
    /// Impact score, as `f32` bits.
    pub impact_score_bits: u32,
    /// Timestamp.
    pub timestamp: i64,
}

impl StrategicFeedback {
    /// Create new strategic feedback.
    pub fn new(
        source: &str,
        objective_id: &str,
        feedback_type: &str,
        content: &str,
        impact_bits: u32,
    ) -> (f: Self)
        ensures
            f.source@ == source@,
            f.objective_id@ == objective_id@,
            f.feedback_type@ == feedback_type@,
            f.content@ == content@,
            f.impact_score_bits == impact_bits,
    {
        StrategicFeedback {
            source: owned(source),
            objective_id: owned(objective_id),
            feedback_type: owned(feedback_type),
            content: owned(content),
            impact_score_bits: impact_bits,
            timestamp: now_timestamp(),
        }
    }
}

/// The objectives whose status is "active", in insertion order.
pub open spec fn active_of(objs: Seq<StrategicObjective>) -> Seq<StrategicObjective> {
    objs.filter(|o: StrategicObjective| o.status@ == "active"@)
}

/// The updates whose status is "pending", in insertion order.
pub open spec fn pending_of(ups: Seq<StrategicUpdate>) -> Seq<StrategicUpdate> {
    ups.filter(|u: StrategicUpdate| u.status@ == "pending"@)
}

/// The strategic learning engine manages strategic objectives and updates.
pub struct StrategicLearningEngine {
    /// Active strategic objectives.
    objectives: StrMap<StrategicObjective>,
    /// Pending strategic updates.
    updates: StrMap<StrategicUpdate>,
    /// Completed evaluations.
    evaluations: StrMap<StrategicEvaluation>,
    /// Feedback records.
    feedback: Vec<StrategicFeedback>,
}

impl StrategicLearningEngine {
    /// Objectives by id, in insertion order.
    pub closed spec fn objectives(self) -> Seq<(Seq<char>, StrategicObjective)> {
        self.objectives@
    }

    /// Updates by id, in insertion order.
    pub closed spec fn updates(self) -> Seq<(Seq<char>, StrategicUpdate)> {
        self.updates@
    }

    /// Evaluations by objective id, in insertion order.
    pub closed spec fn evaluations(self) -> Seq<(Seq<char>, StrategicEvaluation)> {
        self.evaluations@
    }

    /// Feedback records, oldest first.
    pub closed spec fn feedback(self) -> Seq<StrategicFeedback> {
        self.feedback@
    }

    /// Create a new strategic learning engine holding nothing.
    pub fn new() -> (e: Self)
        ensures
            e.objectives().len() == 0,
            e.updates().len() == 0,
            e.evaluations().len() == 0,
            e.feedback().len() == 0,
    {
        StrategicLearningEngine {
            objectives: StrMap::new(),
            updates: StrMap::new(),
            evaluations: StrMap::new(),
            feedback: Vec::new(),
        }
    }

    /// Add a strategic objective under its id, replacing any with the same id.
    pub fn add_objective(&mut self, objective: StrategicObjective)
        ensures
            final(self).objectives() == kv_insert(old(self).objectives(), objective.id@, objective),
            final(self).updates() == old(self).updates(),
            final(self).evaluations() == old(self).evaluations(),
            final(self).feedback() == old(self).feedback(),
    {
        let id = objective.id.clone();
        self.objectives.insert(id, objective);
    }

    /// Get an objective by ID.
    pub fn get_objective(&self, id: &str) -> (r: Option<&StrategicObjective>)
        ensures
            match r {
                Some(o) => lookup(self.objectives(), id@) == Some(*o),
                None => lookup(self.objectives(), id@) is None,
            },
    {
        self.objectives.get(id)
    }

    /// Add a strategic update under its id, replacing any with the same id.
    pub fn add_update(&mut self, update: StrategicUpdate)
        ensures
            final(self).updates() == kv_insert(old(self).updates(), update.id@, update),
            final(self).objectives() == old(self).objectives(),
            final(self).evaluations() == old(self).evaluations(),
            final(self).feedback() == old(self).feedback(),
    {
        let id = update.id.clone();
        self.updates.insert(id, update);
    }

    /// Apply a strategic update. Returns whether an update with that id exists;
    /// if it does, it is applied in place and nothing else changes.
    pub fn apply_update(&mut self, id: &str) -> (r: bool)
        ensures
            r == (key_pos(old(self).updates(), id@) is Some),
            match key_pos(old(self).updates(), id@) {
                Some(i) => final(self).updates().len() == old(self).updates().len() && (forall|j: int|
                    0 <= j < old(self).updates().len() && j != i ==> final(self).updates()[j] == old(
                        self,
                    ).updates()[j]) && final(self).updates()[i].0 == old(self).updates()[i].0
                    && applied(old(self).updates()[i].1, final(self).updates()[i].1),
                None => final(self).updates() == old(self).updates(),
            },
            final(self).objectives() == old(self).objectives(),
            final(self).evaluations() == old(self).evaluations(),
            final(self).feedback() == old(self).feedback(),
    {
        match self.updates.position(id) {
            Some(i) => {
                let mut u = self.updates.value_at(i).clone();
                u.apply();
                self.updates.replace_value(i, u);
                true
            },
            None => false,
        }
    }

    /// Evaluate strategic progress: store a fresh evaluation for the objective
    /// (replacing any earlier one) and return it.
    pub fn evaluate(&mut self, objective_id: &str, progress_bits: u32) -> (r: Option<
        &StrategicEvaluation,
    >)
        ensures
            r matches Some(e) && e.objective_id@ == objective_id@ && e.progress_score_bits
                == progress_bits && e.evidence_count == 0 && final(self).evaluations()
                == kv_insert(old(self).evaluations(), objective_id@, *e),
            final(self).objectives() == old(self).objectives(),
            final(self).updates() == old(self).updates(),
            final(self).feedback() == old(self).feedback(),
    {
        let evaluation = StrategicEvaluation::new(objective_id, progress_bits);
        let ghost ev = evaluation;
        self.evaluations.insert(owned(objective_id), evaluation);
        proof {
            crate::str_map::lemma_insert_lookup(old(self).evaluations(), objective_id@, ev);
        }
        self.evaluations.get(objective_id)
    }

    /// Add strategic feedback.
    pub fn add_feedback(&mut self, feedback: StrategicFeedback)
        ensures
            final(self).feedback() == old(self).feedback().push(feedback),
            final(self).objectives() == old(self).objectives(),
            final(self).updates() == old(self).updates(),
            final(self).evaluations() == old(self).evaluations(),
    {
        self.feedback.push(feedback);
    }

    /// Number of feedback records.
    pub fn feedback_count(&self) -> (n: usize)
        ensures
            n == self.feedback().len(),
    {
        self.feedback.len()
    }

    /// Get all active objectives, in the order they were first added.
    pub fn active_objectives(&self) -> (r: Vec<&StrategicObjective>)
        ensures
            r@.map_values(|o: &StrategicObjective| *o) == active_of(values_of(self.objectives())),
    {
        let mut r: Vec<&StrategicObjective> = Vec::new();
        let mut i: usize = 0;
        let ghost vals = values_of(self.objectives());
        while i < self.objectives.len()
            invariant
                i <= self.objectives@.len(),
                vals == values_of(self.objectives()),
                r@.map_values(|o: &StrategicObjective| *o) == active_of(vals.take(i as int)),
            decreases self.objectives@.len() - i,
        {
            let o = self.objectives.value_at(i);
            let ghost before = r@;
            proof {
                assert(vals.take(i + 1).drop_last() =~= vals.take(i as int));
                assert(vals[i as int] == *o);
                reveal_with_fuel(Seq::filter, 1);
            }
            if str_eq(o.status.as_str(), "active") {
                r.push(o);
                assert(r@.map_values(|o: &StrategicObjective| *o) =~= before.map_values(
                    |o: &StrategicObjective| *o,
                ).push(*o));
            }
            i += 1;
        }
        assert(vals.take(vals.len() as int) =~= vals);
        r
    }

    /// Get all pending updates, in the order they were first added.
    pub fn pending_updates(&self) -> (r: Vec<&StrategicUpdate>)
        ensures
            r@.map_values(|u: &StrategicUpdate| *u) == pending_of(values_of(self.updates())),
    {
        let mut r: Vec<&StrategicUpdate> = Vec::new();
        let mut i: usize = 0;
        let ghost vals = values_of(self.updates());
        while i < self.updates.len()
            invariant
                i <= self.updates@.len(),
                vals == values_of(self.updates()),
                r@.map_values(|u: &StrategicUpdate| *u) == pending_of(vals.take(i as int)),
            decreases self.updates@.len() - i,
        {
            let u = self.updates.value_at(i);
            let ghost before = r@;
            proof {
                assert(vals.take(i + 1).drop_last() =~= vals.take(i as int));
                assert(vals[i as int] == *u);
                reveal_with_fuel(Seq::filter, 1);
            }
            if str_eq(u.status.as_str(), "pending") {
                r.push(u);
                assert(r@.map_values(|u: &StrategicUpdate| *u) =~= before.map_values(
                    |u: &StrategicUpdate| *u,
                ).push(*u));
            }
            i += 1;
        }
        assert(vals.take(vals.len() as int) =~= vals);
        r
    }
}

/// Bit pattern of the `f32` value 0.75.
pub const PROGRESS_THREE_QUARTERS_BITS: u32 = 0x3F40_0000;

/// Bit pattern of the `f32` value 0.8.
pub const IMPACT_POINT_EIGHT_BITS: u32 = 0x3F4C_CCCD;

/// Exercise the strategic learning contracts: add an objective and an
/// update, apply the update, evaluate the objective at 0.75 and record one
/// piece of feedback. Returns whether the evaluation exists and how many
/// feedback records there are: `(true, 1)`.
pub fn reference_strategic_learning() -> (r: (bool, usize))
    ensures
        r == (true, 1usize),
{
    let mut engine = StrategicLearningEngine::new();
    let objective = StrategicObjective::new(
        "obj-1",
        "Improve Memory Retrieval",
        StrategicCategory::MemoryRetrieval,
        "Enhance retrieval accuracy",
        5,
    );
    engine.add_objective(objective);
    let update = StrategicUpdate::new(
        "upd-1",
        "obj-1",
        "update_confidence",
        "memory_record_1",
        "Increase confidence based on evidence",
    );
    engine.add_update(update);
    engine.apply_update("upd-1");
    let evaluation = engine.evaluate("obj-1", PROGRESS_THREE_QUARTERS_BITS);
    let exists = evaluation.is_some();
    let feedback = StrategicFeedback::new(
        "execution",
        "obj-1",
        "positive",
        "Execution completed successfully",
        IMPACT_POINT_EIGHT_BITS,
    );
    engine.add_feedback(feedback);
    (exists, engine.feedback_count())
}

} // verus!

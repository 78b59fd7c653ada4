//! Architecture validation: recording alignment checks of the subsystems
//! against the architecture specification.

use vstd::prelude::*;
use crate::ids::now_timestamp;
use crate::text::owned;

verus! {

/// Architecture validation result.
#[derive(Debug, Clone, Copy, PartialEq, Eq, Structural)]
pub enum ValidationStatus {
    /// Architecture aligns with spec.
    Aligned,
    /// Architecture has minor deviation.
    MinorDeviation,
    /// Architecture has major deviation.
    MajorDeviation,
    /// Architecture is missing required component.
    MissingComponent,
}

/// The label of a status: the variant's name.
pub open spec fn status_label(s: ValidationStatus) -> Seq<char> {
    match s {
        ValidationStatus::Aligned => "Aligned"@,
        ValidationStatus::MinorDeviation => "MinorDeviation"@,
        ValidationStatus::MajorDeviation => "MajorDeviation"@,
        ValidationStatus::MissingComponent => "MissingComponent"@,
    }
}

/// Statuses that break alignment.
pub open spec fn breaks_alignment(s: ValidationStatus) -> bool {
    s == ValidationStatus::MajorDeviation || s == ValidationStatus::MissingComponent
}

impl ValidationStatus {
    /// Return status label.
    pub fn label(&self) -> (r: &'static str)
        ensures
            r@ == status_label(*self),
    {
        match self {
            ValidationStatus::Aligned => "Aligned",
            ValidationStatus::MinorDeviation => "MinorDeviation",
            ValidationStatus::MajorDeviation => "MajorDeviation",
            ValidationStatus::MissingComponent => "MissingComponent",
        }
    }
}

/// A validation check for architecture alignment.
#[derive(Debug)]
pub struct ArchitectureCheck {
    /// Component checked.
    pub component: String,
    /// Status.
    pub status: ValidationStatus,
    /// Details.
    pub details: String,
    /// Timestamp.
    pub timestamp: i64,
}

impl Clone for ArchitectureCheck {
    fn clone(&self) -> (r: Self)
        ensures
            r == *self,
    {
        ArchitectureCheck {
            component: self.component.clone(),
            status: self.status,
            details: self.details.clone(),
            timestamp: self.timestamp,
        }
    }
}

/// What a check records: component, status and details.
pub open spec fn check_summary(c: ArchitectureCheck) -> (Seq<char>, ValidationStatus, Seq<char>) {
    (c.component@, c.status, c.details@)
}

impl ArchitectureCheck {
    /// Create a new check stamped with the current time.
    pub fn new(component: &str, status: ValidationStatus, details: &str) -> (c: Self)
        ensures
            c.component@ == component@,
            c.status == status,
            c.details@ == details@,
    {
        ArchitectureCheck {
            component: owned(component),
            status,
            details: owned(details),
            timestamp: now_timestamp(),
        }
    }
}

/// The predicate "the check has status `s`".
pub open spec fn status_is(s: ValidationStatus) -> spec_fn(ArchitectureCheck) -> bool {
    |c: ArchitectureCheck| c.status == s
}

/// The components of the checks with the given status, in order.
pub open spec fn components_with(checks: Seq<ArchitectureCheck>, s: ValidationStatus) -> Seq<
    Seq<char>,
> {
    checks.filter(status_is(s)).map_values(
        |c: ArchitectureCheck| c.component@,
    )
}

/// Architecture validation manager.
#[derive(Debug)]
pub struct ArchitectureValidator {
    /// Validation checks performed.
    checks: Vec<ArchitectureCheck>,
    /// Overall alignment status.
    overall_aligned: bool,
}

impl ArchitectureValidator {
    /// The checks, in the order they were added.
    pub closed spec fn checks(self) -> Seq<ArchitectureCheck> {
        self.checks@
    }

    /// The overall alignment flag.
    pub closed spec fn overall_aligned(self) -> bool {
        self.overall_aligned
    }

    /// The flag says exactly whether no check broke alignment.
    pub open spec fn consistent(self) -> bool {
        self.overall_aligned() == (forall|i: int|
            0 <= i < self.checks().len() ==> !breaks_alignment(#[trigger] self.checks()[i].status))
    }

    /// Create a new validator: no checks, aligned.
    pub fn new() -> (v: Self)
        ensures
            v.checks().len() == 0,
            v.overall_aligned(),
            v.consistent(),
    {
        ArchitectureValidator { checks: Vec::new(), overall_aligned: true }
    }

    /// Add a validation check; a major deviation or a missing component
    /// clears the alignment flag for good.
    pub fn add_check(&mut self, check: ArchitectureCheck)
        ensures
            final(self).checks() == old(self).checks().push(check),
            final(self).overall_aligned() == (old(self).overall_aligned() && !breaks_alignment(
                check.status,
            )),
            old(self).consistent() ==> final(self).consistent(),
    {
        if check.status == ValidationStatus::MajorDeviation || check.status
            == ValidationStatus::MissingComponent {
            self.overall_aligned = false;
        }
        self.checks.push(check);
        proof {
            let o = old(self).checks();
            let n = self.checks();
            assert forall|i: int| 0 <= i < o.len() implies n[i] == o[i] by {}
            assert(n[o.len() as int] == check);
            if old(self).consistent() {
                if self.overall_aligned {
                    assert forall|i: int| 0 <= i < n.len() implies !breaks_alignment(
                        #[trigger] n[i].status,
                    ) by {
                        if i < o.len() {
                            assert(n[i] == o[i]);
                        }
                    }
                } else if !old(self).overall_aligned() {
                    let i = choose|i: int| 0 <= i < o.len() && breaks_alignment(#[trigger] o[i].status);
                    assert(n[i] == o[i]);
                } else {
                    assert(breaks_alignment(n[o.len() as int].status));
                }
            }
        }
    }

    /// Check if architecture is fully aligned: the flag is set and no
    /// component is missing.
    pub fn is_aligned(&self) -> (r: bool)
        ensures
            r == (self.overall_aligned() && forall|i: int|
                0 <= i < self.checks().len() ==> self.checks()[i].status
                    != ValidationStatus::MissingComponent),
    {
        if !self.overall_aligned {
            return false;
        }
        let mut i: usize = 0;
        while i < self.checks.len()
            invariant
                i <= self.checks@.len(),
                forall|j: int| 0 <= j < i ==> self.checks@[j].status != ValidationStatus::MissingComponent,
            decreases self.checks@.len() - i,
        {
            if self.checks[i].status == ValidationStatus::MissingComponent {
                return false;
            }
            i += 1;
        }
        true
    }

    /// Get all checks.
    pub fn get_checks(&self) -> (r: Vec<ArchitectureCheck>)
        ensures
            r@ == self.checks(),
    {
        let r = self.checks.clone();
        assert(r@ =~= self.checks@);
        r
    }

    /// Number of checks.
    pub fn check_count(&self) -> (n: usize)
        ensures
            n == self.checks().len(),
    {
        self.checks.len()
    }

    fn components_with_status(&self, s: ValidationStatus) -> (r: Vec<String>)
        ensures
            r@.map_values(|c: String| c@) == components_with(self.checks(), s),
    {
        let mut r: Vec<String> = Vec::new();
        let mut i: usize = 0;
        while i < self.checks.len()
            invariant
                i <= self.checks@.len(),
                r@.map_values(|c: String| c@) == components_with(self.checks@.take(i as int), s),
            decreases self.checks@.len() - i,
        {
            let ghost before = r@;
            proof {
                assert(self.checks@.take(i + 1).drop_last() =~= self.checks@.take(i as int));
                reveal_with_fuel(Seq::filter, 1);
            }
            if self.checks[i].status == s {
                r.push(self.checks[i].component.clone());
                assert(r@.map_values(|c: String| c@) =~= before.map_values(|c: String| c@).push(
                    self.checks@[i as int].component@,
                ));
            }
            i += 1;
        }
        assert(self.checks@.take(self.checks@.len() as int) =~= self.checks@);
        r
    }

    /// Get missing components.
    pub fn get_missing_components(&self) -> (r: Vec<String>)
        ensures
            r@.map_values(|c: String| c@) == components_with(
                self.checks(),
                ValidationStatus::MissingComponent,
            ),
    {
        self.components_with_status(ValidationStatus::MissingComponent)
    }

    /// Get major deviations.
    pub fn get_major_deviations(&self) -> (r: Vec<String>)
        ensures
            r@.map_values(|c: String| c@) == components_with(
                self.checks(),
                ValidationStatus::MajorDeviation,
            ),
    {
        self.components_with_status(ValidationStatus::MajorDeviation)
    }
}

/// The checks recorded against the specification, one per chapter.
pub open spec fn reference_checks() -> Seq<(Seq<char>, ValidationStatus, Seq<char>)> {
    seq![
        ("Chapter 05 - Data Contracts"@, ValidationStatus::Aligned, "contract_validator.rs exists and wired"@),
        ("Chapter 06 - Conversation Engine"@, ValidationStatus::Aligned, "ConversationEvent enum exists and wired"@),
        ("Chapter 07 - Context Engine"@, ValidationStatus::Aligned, "context_engine/ exists with assembly pipeline"@),
        ("Chapter 08 - Memory Engine"@, ValidationStatus::MinorDeviation, "semantic/procedural split added; forgetting policy implemented"@),
        ("Chapter 09 - Experience Engine"@, ValidationStatus::Aligned, "experience/ (100 files) very complete"@),
        ("Chapter 10 - Learning Engine"@, ValidationStatus::Aligned, "learning/ (23 files) exists"@),
        ("Chapter 11 - Planning Engine"@, ValidationStatus::Aligned, "planner/ (7 files) exists"@),
        ("Chapter 12 - Execution Engine"@, ValidationStatus::Aligned, "execution/ expanded with checkpoint/reproducibility/idempotency"@),
        ("Chapter 13 - Tool Engine"@, ValidationStatus::Aligned, "execution_pipeline.rs exists and wired"@),
        ("Chapter 14 - Memory Hierarchy"@, ValidationStatus::Aligned, "memory_hierarchy/ exists and complete"@),
        ("Chapter 15 - Context Lifecycle"@, ValidationStatus::Aligned, "context_lifecycle/ exists with 11 stages"@),
        ("Chapter 16 - Retrieval Pipeline"@, ValidationStatus::Aligned, "retrieval_pipeline/ exists with 5 sources"@),
        ("Chapter 17 - Prompt Construction"@, ValidationStatus::Aligned, "prompt_construction/ exists with 8 layers"@),
        ("Chapter 18 - Strategic Learning"@, ValidationStatus::Aligned, "strategic_learning/ exists with full pipeline"@),
        ("Chapter 19 - Confidence System"@, ValidationStatus::Aligned, "confidence_system/ exists with 7 domains"@),
        ("Chapter 20 - Knowledge Graph"@, ValidationStatus::MinorDeviation, "graph_verification/ exists; full graph traversal non-blocking"@),
        ("Chapter 21 - Storage Architecture"@, ValidationStatus::Aligned, "storage_architecture/ exists with layer policies"@),
        ("Chapter 22 - Database Design"@, ValidationStatus::MinorDeviation, "database/ (19 files) exists; new_subsystems_v16 migration added"@),
        ("Chapter 23 - Background Workers"@, ValidationStatus::Aligned, "background_workers/ exists with supervisor/scheduling/recovery"@),
        ("Chapter 24 - AI Contributor Agreement"@, ValidationStatus::Aligned, "AGENTS.md covers contribution rules"@),
        ("Chapter 25 - Security & Trust"@, ValidationStatus::Aligned, "security/full.rs exists with identity/capability/audit/trust"@),
        ("Chapter 26 - Self-Improvement"@, ValidationStatus::MinorDeviation, "evolution/full.rs exists; full pipeline implemented"@),
        ("Chapter 27 - Observability"@, ValidationStatus::Aligned, "observability/tracing.rs expanded with cognitive trace/timeline/debug/production/anomaly"@),
        ("Chapter 28 - Developer Interface"@, ValidationStatus::Aligned, "developer_interface/full.rs exists with cognitive explorer/memory/strategic/worker/debug/visualization"@),
        ("Chapter 29 - Configuration"@, ValidationStatus::Aligned, "config/ exists with RuntimeProfile/load_config/validate_config"@),
        ("Chapter 30 - Testing"@, ValidationStatus::MinorDeviation, "test_suite2.1/ exists; architecture validation partial (non-blocking)"@),
        ("Chapter 31 - Deployment"@, ValidationStatus::Aligned, "deployment/ exists with bootstrap/shutdown"@),
        ("Chapter 32 - Future Expansion"@, ValidationStatus::Aligned, "robot_architecture/v0.0.2.1/ documents future capabilities"@),
        ("Chapter 33 - Future Architecture"@, ValidationStatus::Aligned, "robot_architecture/v0.0.2.1/33.md documents roadmap"@)
    ]
}

/// Validate architecture against the v0.0.2 specification: one check per
/// chapter from 05 to 33.
pub fn validate_architecture() -> (v: ArchitectureValidator)
    ensures
        v.checks().map_values(|c: ArchitectureCheck| check_summary(c)) == reference_checks(),
        v.consistent(),
{
    let mut validator = ArchitectureValidator::new();
    validator.add_check(ArchitectureCheck::new(
        "Chapter 05 - Data Contracts",
        ValidationStatus::Aligned,
        "contract_validator.rs exists and wired",
    ));
    validator.add_check(ArchitectureCheck::new(
        "Chapter 06 - Conversation Engine",
        ValidationStatus::Aligned,
        "ConversationEvent enum exists and wired",
    ));
    validator.add_check(ArchitectureCheck::new(
        "Chapter 07 - Context Engine",
        ValidationStatus::Aligned,
        "context_engine/ exists with assembly pipeline",
    ));
    validator.add_check(ArchitectureCheck::new(
        "Chapter 08 - Memory Engine",
        ValidationStatus::MinorDeviation,
        "semantic/procedural split added; forgetting policy implemented",
    ));
    validator.add_check(ArchitectureCheck::new(
        "Chapter 09 - Experience Engine",
        ValidationStatus::Aligned,
        "experience/ (100 files) very complete",
    ));
    validator.add_check(ArchitectureCheck::new(
        "Chapter 10 - Learning Engine",
        ValidationStatus::Aligned,
        "learning/ (23 files) exists",
    ));
    validator.add_check(ArchitectureCheck::new(
        "Chapter 11 - Planning Engine",
        ValidationStatus::Aligned,
        "planner/ (7 files) exists",
    ));
    validator.add_check(ArchitectureCheck::new(
        "Chapter 12 - Execution Engine",
        ValidationStatus::Aligned,
        "execution/ expanded with checkpoint/reproducibility/idempotency",
    ));
    validator.add_check(ArchitectureCheck::new(
        "Chapter 13 - Tool Engine",
        ValidationStatus::Aligned,
        "execution_pipeline.rs exists and wired",
    ));
    validator.add_check(ArchitectureCheck::new(
        "Chapter 14 - Memory Hierarchy",
        ValidationStatus::Aligned,
        "memory_hierarchy/ exists and complete",
    ));
    validator.add_check(ArchitectureCheck::new(
        "Chapter 15 - Context Lifecycle",
        ValidationStatus::Aligned,
        "context_lifecycle/ exists with 11 stages",
    ));
    validator.add_check(ArchitectureCheck::new(
        "Chapter 16 - Retrieval Pipeline",
        ValidationStatus::Aligned,
        "retrieval_pipeline/ exists with 5 sources",
    ));
    validator.add_check(ArchitectureCheck::new(
        "Chapter 17 - Prompt Construction",
        ValidationStatus::Aligned,
        "prompt_construction/ exists with 8 layers",
    ));
    validator.add_check(ArchitectureCheck::new(
        "Chapter 18 - Strategic Learning",
        ValidationStatus::Aligned,
        "strategic_learning/ exists with full pipeline",
    ));
    validator.add_check(ArchitectureCheck::new(
        "Chapter 19 - Confidence System",
        ValidationStatus::Aligned,
        "confidence_system/ exists with 7 domains",
    ));
    validator.add_check(ArchitectureCheck::new(
        "Chapter 20 - Knowledge Graph",
        ValidationStatus::MinorDeviation,
        "graph_verification/ exists; full graph traversal non-blocking",
    ));
    validator.add_check(ArchitectureCheck::new(
        "Chapter 21 - Storage Architecture",
        ValidationStatus::Aligned,
        "storage_architecture/ exists with layer policies",
    ));
    validator.add_check(ArchitectureCheck::new(
        "Chapter 22 - Database Design",
        ValidationStatus::MinorDeviation,
        "database/ (19 files) exists; new_subsystems_v16 migration added",
    ));
    validator.add_check(ArchitectureCheck::new(
        "Chapter 23 - Background Workers",
        ValidationStatus::Aligned,
        "background_workers/ exists with supervisor/scheduling/recovery",
    ));
    validator.add_check(ArchitectureCheck::new(
        "Chapter 24 - AI Contributor Agreement",
        ValidationStatus::Aligned,
        "AGENTS.md covers contribution rules",
    ));
    validator.add_check(ArchitectureCheck::new(
        "Chapter 25 - Security & Trust",
        ValidationStatus::Aligned,
        "security/full.rs exists with identity/capability/audit/trust",
    ));
    validator.add_check(ArchitectureCheck::new(
        "Chapter 26 - Self-Improvement",
        ValidationStatus::MinorDeviation,
        "evolution/full.rs exists; full pipeline implemented",
    ));
    validator.add_check(ArchitectureCheck::new(
        "Chapter 27 - Observability",
        ValidationStatus::Aligned,
        "observability/tracing.rs expanded with cognitive trace/timeline/debug/production/anomaly",
    ));
    validator.add_check(ArchitectureCheck::new(
        "Chapter 28 - Developer Interface",
        ValidationStatus::Aligned,
        "developer_interface/full.rs exists with cognitive explorer/memory/strategic/worker/debug/visualization",
    ));
    validator.add_check(ArchitectureCheck::new(
        "Chapter 29 - Configuration",
        ValidationStatus::Aligned,
        "config/ exists with RuntimeProfile/load_config/validate_config",
    ));
    validator.add_check(ArchitectureCheck::new(
        "Chapter 30 - Testing",
        ValidationStatus::MinorDeviation,
        "test_suite2.1/ exists; architecture validation partial (non-blocking)",
    ));
    validator.add_check(ArchitectureCheck::new(
        "Chapter 31 - Deployment",
        ValidationStatus::Aligned,
        "deployment/ exists with bootstrap/shutdown",
    ));
    validator.add_check(ArchitectureCheck::new(
        "Chapter 32 - Future Expansion",
        ValidationStatus::Aligned,
        "robot_architecture/v0.0.2.1/ documents future capabilities",
    ));
    validator.add_check(ArchitectureCheck::new(
        "Chapter 33 - Future Architecture",
        ValidationStatus::Aligned,
        "robot_architecture/v0.0.2.1/33.md documents roadmap",
    ));
    assert(validator.checks().map_values(|c: ArchitectureCheck| check_summary(c)) =~= reference_checks());
    validator
}

/// Validate architecture against the v0.0.2 specification.
pub fn validate_architecture_v0_0_2() -> (v: ArchitectureValidator)
    ensures
        v.checks().map_values(|c: ArchitectureCheck| check_summary(c)) == reference_checks(),
        v.consistent(),
{
    validate_architecture()
}

/// No reference check breaks alignment or reports a missing component.
pub proof fn lemma_reference_checks_aligned()
    ensures
        reference_checks().len() == 29,
        forall|i: int|
            0 <= i < reference_checks().len() ==> !breaks_alignment(#[trigger] reference_checks()[i].1),
{
    let r = reference_checks();
    assert forall|i: int| 0 <= i < r.len() implies !breaks_alignment(#[trigger] r[i].1) by {
        assert(r[i].1 == ValidationStatus::Aligned || r[i].1 == ValidationStatus::MinorDeviation);
    }
}

/// Exercise the validation contracts on the reference validation. Returns
/// whether it is aligned and how many missing components, major deviations
/// and checks it has: `(true, 0, 0, 29)`.
pub fn reference_architecture_validation() -> (r: (bool, usize, usize, usize))
    ensures
        r == (true, 0usize, 0usize, 29usize),
{
    let validator = validate_architecture_v0_0_2();
    let ghost checks = validator.checks();
    proof {
        lemma_reference_checks_aligned();
        assert forall|i: int| 0 <= i < checks.len() implies !breaks_alignment(
            #[trigger] checks[i].status,
        ) by {
            assert(check_summary(checks[i]) == reference_checks()[i]);
        }
        crate::seq_util::lemma_filter_none(
            checks,
            status_is(ValidationStatus::MissingComponent),
        );
        crate::seq_util::lemma_filter_none(
            checks,
            status_is(ValidationStatus::MajorDeviation),
        );
    }
    let aligned = validator.is_aligned();
    assert(aligned);
    let missing = validator.get_missing_components();
    assert(missing@.map_values(|c: String| c@).len() == 0);
    assert(missing.len() == 0);
    let deviations = validator.get_major_deviations();
    assert(deviations@.map_values(|c: String| c@).len() == 0);
    assert(deviations.len() == 0);
    let n = validator.check_count();
    assert(checks.map_values(|c: ArchitectureCheck| check_summary(c)).len() == 29);
    assert(n == 29);
    (aligned, missing.len(), deviations.len(), n)
}

} // verus!

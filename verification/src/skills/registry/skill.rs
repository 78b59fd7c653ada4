//! A registered skill: identity, metadata, usage counters and mastery.
//!
//! Mastery is a number between 0 and 1 kept as an `f32`. The library keeps it
//! as that number's IEEE-754 bit pattern (`f32::to_bits`) and never does
//! floating-point arithmetic on it: the caller works out a new mastery and
//! hands its bits in. For a pattern that is not negative and not NaN,
//! comparing bits compares the numbers, and the threshold tests below are
//! written that way.

use vstd::prelude::*;
use crate::ids::{new_id, now_timestamp};
use crate::skills::registry::{
    texts, MetadataView, SkillCategory, SkillMetadata, SkillSource, SourceView,
};
use crate::text::{owned, str_eq};

verus! {

/// `0.5_f32.to_bits()`: mastery of a newly registered skill.
pub const NEUTRAL_MASTERY_BITS: u32 = 0x3F00_0000;

/// `0.3_f32.to_bits()`: mastery of a newly discovered skill, and the mastery
/// from which a skill is ready to use.
pub const READY_MASTERY_BITS: u32 = 0x3E99_999A;

/// `0.8_f32.to_bits()`: mastery from which a skill counts as mastered.
pub const MASTERED_MASTERY_BITS: u32 = 0x3F4C_CCCD;

/// `f32::INFINITY.to_bits()`: the largest pattern of a number that is not
/// negative; patterns above it are NaN or negative.
pub const MAX_MASTERY_BITS: u32 = 0x7F80_0000;

/// `f32::from_bits(bits) >= f32::from_bits(threshold)` for a threshold that
/// is a positive finite number.
pub open spec fn mastery_at_least(bits: u32, threshold: u32) -> bool {
    threshold <= bits <= MAX_MASTERY_BITS
}

/// A registered skill with execution capability.
#[derive(Debug)]
pub struct Skill {
    pub id: String,
    pub metadata: SkillMetadata,
    pub enabled: bool,
    /// Usage metrics.
    pub usage_count: u64,
    pub success_count: u64,
    pub failure_count: u64,
    /// Unix time, in seconds, of the last use.
    pub last_used: Option<i64>,
    /// Mastery (0.0 to 1.0), as `f32` bits.
    pub mastery_bits: u32,
    /// Unix time, in seconds, of the last successful use.
    pub last_practiced: Option<i64>,
    /// Names of the skills this one depends on.
    pub prerequisites: Vec<String>,
    /// Where the skill came from.
    pub source: SkillSource,
}

/// What a skill holds, as plain values.
pub struct SkillView {
    pub id: Seq<char>,
    pub metadata: MetadataView,
    pub enabled: bool,
    pub usage_count: u64,
    pub success_count: u64,
    pub failure_count: u64,
    pub last_used: Option<i64>,
    pub mastery_bits: u32,
    pub last_practiced: Option<i64>,
    pub prerequisites: Seq<Seq<char>>,
    pub source: SourceView,
}

impl View for Skill {
    type V = SkillView;

    open spec fn view(&self) -> SkillView {
        SkillView {
            id: self.id@,
            metadata: self.metadata@,
            enabled: self.enabled,
            usage_count: self.usage_count,
            success_count: self.success_count,
            failure_count: self.failure_count,
            last_used: self.last_used,
            mastery_bits: self.mastery_bits,
            last_practiced: self.last_practiced,
            prerequisites: texts(self.prerequisites@),
            source: self.source@,
        }
    }
}

impl Clone for Skill {
    fn clone(&self) -> (r: Self)
        ensures
            r@ == self@,
    {
        let prerequisites = self.prerequisites.clone();
        assert(prerequisites@ =~= self.prerequisites@);
        Skill {
            id: self.id.clone(),
            metadata: self.metadata.clone(),
            enabled: self.enabled,
            usage_count: self.usage_count,
            success_count: self.success_count,
            failure_count: self.failure_count,
            last_used: self.last_used,
            mastery_bits: self.mastery_bits,
            last_practiced: self.last_practiced,
            prerequisites,
            source: self.source.clone(),
        }
    }
}

/// A skill after one more successful use: counters up by one, mastery
/// replaced, both timestamps set, everything else kept.
pub open spec fn after_success(old: SkillView, new: SkillView, mastery_bits: u32) -> bool {
    &&& new.usage_count == old.usage_count + 1
    &&& new.success_count == old.success_count + 1
    &&& new.failure_count == old.failure_count
    &&& new.mastery_bits == mastery_bits
    &&& new.last_used is Some
    &&& new.last_practiced is Some
    &&& new.id == old.id
    &&& new.metadata == old.metadata
    &&& new.enabled == old.enabled
    &&& new.prerequisites == old.prerequisites
    &&& new.source == old.source
}

/// A skill after one more failed use: counters up by one, mastery replaced,
/// the time of last use set, everything else kept.
pub open spec fn after_failure(old: SkillView, new: SkillView, mastery_bits: u32) -> bool {
    &&& new.usage_count == old.usage_count + 1
    &&& new.success_count == old.success_count
    &&& new.failure_count == old.failure_count + 1
    &&& new.mastery_bits == mastery_bits
    &&& new.last_used is Some
    &&& new.last_practiced == old.last_practiced
    &&& new.id == old.id
    &&& new.metadata == old.metadata
    &&& new.enabled == old.enabled
    &&& new.prerequisites == old.prerequisites
    &&& new.source == old.source
}

/// A skill after one more use with the given outcome.
pub open spec fn after_usage(
    old: SkillView,
    new: SkillView,
    success: bool,
    mastery_bits: u32,
) -> bool {
    if success {
        after_success(old, new, mastery_bits)
    } else {
        after_failure(old, new, mastery_bits)
    }
}

/// The counters leave room for one more use.
pub open spec fn can_record(s: SkillView) -> bool {
    s.usage_count < u64::MAX && s.success_count < u64::MAX && s.failure_count < u64::MAX
}

/// Ready: enabled, with mastery at least 0.3.
pub open spec fn is_ready_spec(s: SkillView) -> bool {
    s.enabled && mastery_at_least(s.mastery_bits, READY_MASTERY_BITS)
}

/// Every prerequisite is among the learned skills.
pub open spec fn prerequisites_met_spec(prereqs: Seq<Seq<char>>, learned: Seq<Seq<char>>) -> bool {
    forall|i: int| 0 <= i < prereqs.len() ==> learned.contains(#[trigger] prereqs[i])
}

fn contains_text(list: &[String], item: &String) -> (r: bool)
    ensures
        r == texts(list@).contains(item@),
{
    let mut i: usize = 0;
    while i < list.len()
        invariant
            i <= list.len(),
            forall|j: int| 0 <= j < i ==> list@[j]@ != item@,
        decreases list.len() - i,
    {
        if str_eq(list[i].as_str(), item.as_str()) {
            assert(texts(list@)[i as int] == item@);
            return true;
        }
        i += 1;
    }
    assert forall|j: int| 0 <= j < texts(list@).len() implies texts(list@)[j] != item@ by {
        assert(texts(list@)[j] == list@[j]@);
    }
    false
}

impl Skill {
    /// Create a new, manually registered skill with a fresh identifier and
    /// neutral mastery.
    pub fn new(metadata: SkillMetadata) -> (s: Skill)
        ensures
            s@.id.len() == 36,
            s@.metadata == metadata@,
            s@.enabled,
            s@.usage_count == 0,
            s@.success_count == 0,
            s@.failure_count == 0,
            s@.last_used is None,
            s@.mastery_bits == NEUTRAL_MASTERY_BITS,
            s@.last_practiced is None,
            s@.prerequisites.len() == 0,
            s@.source == SourceView::Manual,
    {
        Skill {
            id: new_id(),
            metadata,
            enabled: true,
            usage_count: 0,
            success_count: 0,
            failure_count: 0,
            last_used: None,
            mastery_bits: NEUTRAL_MASTERY_BITS,
            last_practiced: None,
            prerequisites: Vec::new(),
            source: SkillSource::Manual,
        }
    }

    /// Create a skill discovered from an experience. It starts with low
    /// mastery (0.3) until proven, and is tagged "discovered" and "learned".
    pub fn discovered(
        name: String,
        description: String,
        category: SkillCategory,
        source_experience_id: String,
    ) -> (s: Skill)
        ensures
            s@.id.len() == 36,
            s@.metadata == (MetadataView {
                name: name@,
                description: description@,
                category,
                version: "1.0.0-discovered"@,
                author: Some("RoBoT-Experience"@),
                tags: seq!["discovered"@, "learned"@],
                examples: Seq::empty(),
            }),
            s@.enabled,
            s@.usage_count == 0,
            s@.success_count == 0,
            s@.failure_count == 0,
            s@.last_used is None,
            s@.mastery_bits == READY_MASTERY_BITS,
            s@.last_practiced is None,
            s@.prerequisites.len() == 0,
            s@.source == SourceView::Discovered(source_experience_id@),
    {
        let mut tags: Vec<String> = Vec::new();
        tags.push(owned("discovered"));
        tags.push(owned("learned"));
        assert(texts(tags@) =~= seq!["discovered"@, "learned"@]);
        let examples: Vec<String> = Vec::new();
        assert(texts(examples@) =~= Seq::empty());
        let prerequisites: Vec<String> = Vec::new();
        assert(texts(prerequisites@) =~= Seq::empty());
        Skill {
            id: new_id(),
            metadata: SkillMetadata {
                name,
                description,
                category,
                version: owned("1.0.0-discovered"),
                author: Some(owned("RoBoT-Experience")),
                tags,
                examples,
            },
            enabled: true,
            usage_count: 0,
            success_count: 0,
            failure_count: 0,
            last_used: None,
            mastery_bits: READY_MASTERY_BITS,
            last_practiced: None,
            prerequisites,
            source: SkillSource::Discovered { experience_id: source_experience_id },
        }
    }

    /// Record a successful use. `mastery_bits` is the new mastery, which
    /// rises with diminishing returns on success; working it out is
    /// floating-point work left to the caller.
    pub fn record_success(&mut self, mastery_bits: u32)
        requires
            can_record(old(self)@),
        ensures
            after_success(old(self)@, final(self)@, mastery_bits),
    {
        self.usage_count = self.usage_count + 1;
        self.success_count = self.success_count + 1;
        let now = now_timestamp();
        self.last_used = Some(now);
        self.last_practiced = Some(now);
        self.mastery_bits = mastery_bits;
    }

    /// Record a failed use. `mastery_bits` is the new, lowered mastery,
    /// worked out by the caller.
    pub fn record_failure(&mut self, mastery_bits: u32)
        requires
            can_record(old(self)@),
        ensures
            after_failure(old(self)@, final(self)@, mastery_bits),
    {
        self.usage_count = self.usage_count + 1;
        self.failure_count = self.failure_count + 1;
        self.last_used = Some(now_timestamp());
        self.mastery_bits = mastery_bits;
    }

    /// Record a use with the given outcome.
    pub fn record_usage(&mut self, success: bool, mastery_bits: u32)
        requires
            can_record(old(self)@),
        ensures
            after_usage(old(self)@, final(self)@, success, mastery_bits),
    {
        if success {
            self.record_success(mastery_bits);
        } else {
            self.record_failure(mastery_bits);
        }
    }

    /// Ready to use: enabled, with mastery at least 0.3.
    pub fn is_ready(&self) -> (r: bool)
        ensures
            r == is_ready_spec(self@),
    {
        self.enabled && READY_MASTERY_BITS <= self.mastery_bits
            && self.mastery_bits <= MAX_MASTERY_BITS
    }

    /// Every prerequisite is among `learned_skills`.
    pub fn prerequisites_met(&self, learned_skills: &[String]) -> (r: bool)
        ensures
            r == prerequisites_met_spec(self@.prerequisites, texts(learned_skills@)),
    {
        let mut i: usize = 0;
        while i < self.prerequisites.len()
            invariant
                i <= self.prerequisites@.len(),
                forall|j: int|
                    0 <= j < i ==> texts(learned_skills@).contains(
                        #[trigger] texts(self.prerequisites@)[j],
                    ),
            decreases self.prerequisites@.len() - i,
        {
            if !contains_text(learned_skills, &self.prerequisites[i]) {
                assert(texts(self.prerequisites@)[i as int] == self.prerequisites@[i as int]@);
                return false;
            }
            assert(texts(self.prerequisites@)[i as int] == self.prerequisites@[i as int]@);
            i += 1;
        }
        true
    }
}

} // verus!

//! The skill registry: the list of available skills, in registration order.
//!
//! A skill is found by its identifier or name; where several match, the
//! first one in the list is meant, as a linear search finds it.

use vstd::prelude::*;
use crate::skills::registry::{
    texts, MetadataView, SkillCategory, SkillDiscoveryStats, SkillMetadata, SourceView,
};
use crate::skills::registry::skill::{
    after_usage, can_record, is_ready_spec, mastery_at_least, Skill, SkillView,
    MASTERED_MASTERY_BITS, MAX_MASTERY_BITS, NEUTRAL_MASTERY_BITS,
};
use crate::text::{contains, contains_chars, owned, str_eq, to_chars};

verus! {

/// The views of a list of skills.
pub open spec fn views(v: Seq<Skill>) -> Seq<SkillView> {
    v.map_values(|s: Skill| s@)
}

/// `i` is the first position in `s` whose skill passes `p`.
pub open spec fn is_first_where(s: Seq<SkillView>, p: spec_fn(SkillView) -> bool, i: int) -> bool {
    &&& 0 <= i < s.len()
    &&& p(s[i])
    &&& forall|j: int| 0 <= j < i ==> !p(#[trigger] s[j])
}

/// The first position in `s` whose skill passes `p`, if any.
pub open spec fn first_where(s: Seq<SkillView>, p: spec_fn(SkillView) -> bool) -> Option<int> {
    if exists|i: int| is_first_where(s, p, i) {
        Some(choose|i: int| is_first_where(s, p, i))
    } else {
        None
    }
}

/// The skill has the given identifier.
pub open spec fn has_id(id: Seq<char>) -> spec_fn(SkillView) -> bool {
    |s: SkillView| s.id == id
}

/// The skill has another identifier.
pub open spec fn other_id(id: Seq<char>) -> spec_fn(SkillView) -> bool {
    |s: SkillView| s.id != id
}

/// The skill has the given name.
pub open spec fn has_name(name: Seq<char>) -> spec_fn(SkillView) -> bool {
    |s: SkillView| s.metadata.name == name
}

/// The skill was used fewer than `u` times.
pub open spec fn used_less_than(u: u64) -> spec_fn(SkillView) -> bool {
    |s: SkillView| s.usage_count < u
}

/// Some tag of the skill contains `tag`.
pub open spec fn has_tag_containing(tag: Seq<char>) -> spec_fn(SkillView) -> bool {
    |s: SkillView| exists|k: int| 0 <= k < s.metadata.tags.len() && contains(#[trigger] s.metadata.tags[k], tag)
}

/// The skill belongs to the given category.
pub open spec fn in_category(c: SkillCategory) -> spec_fn(SkillView) -> bool {
    |s: SkillView| s.metadata.category == c
}

/// The skill is enabled.
pub open spec fn enabled_skill() -> spec_fn(SkillView) -> bool {
    |s: SkillView| s.enabled
}

/// The skill is ready to use.
pub open spec fn ready_skill() -> spec_fn(SkillView) -> bool {
    |s: SkillView| is_ready_spec(s)
}

/// The skill came from the given kind of source.
pub open spec fn manual_skill() -> spec_fn(SkillView) -> bool {
    |s: SkillView| s.source is Manual
}

pub open spec fn discovered_skill() -> spec_fn(SkillView) -> bool {
    |s: SkillView| s.source is Discovered
}

pub open spec fn learned_skill() -> spec_fn(SkillView) -> bool {
    |s: SkillView| s.source is Learned
}

/// Mastery at least 0.8.
pub open spec fn mastered_skill() -> spec_fn(SkillView) -> bool {
    |s: SkillView| mastery_at_least(s.mastery_bits, MASTERED_MASTERY_BITS)
}

/// Where a skill used `u` times goes in a list ordered by use, most used
/// first: after every skill used at least as often.
pub open spec fn usage_slot(s: Seq<SkillView>, u: u64) -> int {
    match first_where(s, used_less_than(u)) {
        Some(k) => k,
        None => s.len() as int,
    }
}

/// The skills ordered by use, most used first; skills used equally often
/// keep their order (a stable sort).
pub open spec fn by_usage_desc(s: Seq<SkillView>) -> Seq<SkillView>
    decreases s.len(),
{
    if s.len() == 0 {
        s
    } else {
        let r = by_usage_desc(s.drop_last());
        r.insert(usage_slot(r, s.last().usage_count), s.last())
    }
}

/// Sorted by use, most used first.
pub open spec fn usage_descending(s: Seq<SkillView>) -> bool {
    forall|i: int, j: int| 0 <= i < j < s.len() ==> s[i].usage_count >= s[j].usage_count
}

/// A freshly registered skill with the given metadata.
pub open spec fn fresh_skill(s: SkillView, m: MetadataView) -> bool {
    &&& s.id.len() == 36
    &&& s.metadata == m
    &&& s.enabled
    &&& s.usage_count == 0
    &&& s.success_count == 0
    &&& s.failure_count == 0
    &&& s.last_used is None
    &&& s.mastery_bits == NEUTRAL_MASTERY_BITS
    &&& s.last_practiced is None
    &&& s.prerequisites.len() == 0
    &&& s.source is Manual
}

/// Metadata of a built-in skill: version "1.0.0", author "RoBoT", three tags
/// and one example.
pub open spec fn builtin_metadata(
    name: Seq<char>,
    description: Seq<char>,
    category: SkillCategory,
    tags: Seq<Seq<char>>,
    example: Seq<char>,
) -> MetadataView {
    MetadataView {
        name,
        description,
        category,
        version: "1.0.0"@,
        author: Some("RoBoT"@),
        tags,
        examples: seq![example],
    }
}

/// The metadata of the built-in skills, in order.
pub open spec fn default_metadata() -> Seq<MetadataView> {
    seq![
        builtin_metadata("file_read"@, "Read contents of a file"@, SkillCategory::FileOperation,
            seq!["file"@, "read"@, "io"@], "Read file at path /src/main.rs"@),
        builtin_metadata("file_write"@, "Write contents to a file"@, SkillCategory::FileOperation,
            seq!["file"@, "write"@, "io"@], "Write content to /src/output.txt"@),
        builtin_metadata("search"@, "Search for patterns in files"@, SkillCategory::Search,
            seq!["search"@, "grep"@, "find"@], "Search for 'TODO' in all .rs files"@),
        builtin_metadata("memory_store"@, "Store information in memory"@, SkillCategory::Memory,
            seq!["memory"@, "store"@, "persist"@], "Store that project uses Rust edition 2024"@),
        builtin_metadata("memory_recall"@, "Recall information from memory"@,
            SkillCategory::Memory, seq!["memory"@, "recall"@, "retrieve"@],
            "Recall all information about the database schema"@),
    ]
}

/// The first position passing a test is the one found.
pub proof fn lemma_first_where_is(s: Seq<SkillView>, p: spec_fn(SkillView) -> bool, i: int)
    requires
        is_first_where(s, p, i),
    ensures
        first_where(s, p) == Some(i),
{
    let k = choose|k: int| is_first_where(s, p, k);
    assert(is_first_where(s, p, k));
    if k < i {
        assert(!p(s[k]));
    }
    if i < k {
        assert(!p(s[i]));
    }
}

/// No skill passes the test: nothing is found.
pub proof fn lemma_first_where_none(s: Seq<SkillView>, p: spec_fn(SkillView) -> bool)
    requires
        forall|j: int| 0 <= j < s.len() ==> !p(#[trigger] s[j]),
    ensures
        first_where(s, p) is None,
{
    if exists|i: int| is_first_where(s, p, i) {
        let k = choose|k: int| is_first_where(s, p, k);
        assert(p(s[k]));
    }
}

/// Ordering by use keeps the skills and puts them most used first.
pub proof fn lemma_by_usage_desc(s: Seq<SkillView>)
    ensures
        by_usage_desc(s).len() == s.len(),
        by_usage_desc(s).to_multiset() == s.to_multiset(),
        usage_descending(by_usage_desc(s)),
    decreases s.len(),
{
    broadcast use vstd::seq_lib::group_to_multiset_ensures;

    if s.len() > 0 {
        let r = by_usage_desc(s.drop_last());
        lemma_by_usage_desc(s.drop_last());
        let x = s.last();
        let u = x.usage_count;
        let k = usage_slot(r, u);
        match first_where(r, used_less_than(u)) {
            Some(k0) => {
                assert(is_first_where(r, used_less_than(u), k0));
            },
            None => {
                assert forall|j: int| 0 <= j < r.len() implies r[j].usage_count >= u by {
                    if r[j].usage_count < u {
                        assert(used_less_than(u)(r[j]));
                        if exists|m: int| 0 <= m < r.len() && used_less_than(u)(r[m]) {
                            lemma_exists_first(r, used_less_than(u), j);
                        }
                    }
                }
            },
        }
        assert(0 <= k <= r.len());
        assert forall|j: int| 0 <= j < k implies r[j].usage_count >= u by {
            match first_where(r, used_less_than(u)) {
                Some(k0) => {
                    assert(is_first_where(r, used_less_than(u), k0));
                    assert(!used_less_than(u)(r[j]));
                },
                None => {
                    if r[j].usage_count < u {
                        lemma_exists_first(r, used_less_than(u), j);
                    }
                },
            }
        }
        assert forall|j: int| k <= j < r.len() implies r[j].usage_count < u by {
            match first_where(r, used_less_than(u)) {
                Some(k0) => {
                    assert(is_first_where(r, used_less_than(u), k0));
                    assert(r[k].usage_count < u);
                    if j > k {
                        assert(r[k].usage_count >= r[j].usage_count);
                    }
                },
                None => {},
            }
        }
        r.insert_ensures(k, x);
        let t = r.insert(k, x);
        assert forall|i: int, j: int| 0 <= i < j < t.len() implies t[i].usage_count
            >= t[j].usage_count by {
            if j < k {
            } else if j == k {
            } else if i < k {
                assert(t[j] == r[j - 1]);
            } else if i == k {
                assert(t[j] == r[j - 1]);
            } else {
                assert(t[i] == r[i - 1]);
                assert(t[j] == r[j - 1]);
            }
        }
        assert(s =~= s.drop_last().push(x));
        vstd::seq_lib::to_multiset_insert(r, k, x);
    }
}

/// If some position passes a test, a first one does.
pub proof fn lemma_exists_first(s: Seq<SkillView>, p: spec_fn(SkillView) -> bool, j: int)
    requires
        0 <= j < s.len(),
        p(s[j]),
    ensures
        first_where(s, p) is Some,
    decreases j,
{
    if exists|m: int| 0 <= m < j && p(#[trigger] s[m]) {
        let m = choose|m: int| 0 <= m < j && p(#[trigger] s[m]);
        lemma_exists_first(s, p, m);
    } else {
        assert(is_first_where(s, p, j));
    }
}

/// No two skills share a name.
pub open spec fn names_unique(s: Seq<SkillView>) -> bool {
    forall|i: int, j: int|
        0 <= i < j < s.len() ==> #[trigger] s[i].metadata.name != #[trigger] s[j].metadata.name
}

/// A skill that registration accepted is then found by its name: it is the
/// first (and only) skill with that name.
pub proof fn lemma_registered_found_by_name(s: Seq<SkillView>, skill: SkillView)
    requires
        first_where(s, has_name(skill.metadata.name)) is None,
    ensures
        first_where(s.push(skill), has_name(skill.metadata.name)) == Some(s.len() as int),
{
    let t = s.push(skill);
    let p = has_name(skill.metadata.name);
    assert forall|j: int| 0 <= j < s.len() implies !p(#[trigger] t[j]) by {
        assert(t[j] == s[j]);
        if p(s[j]) {
            lemma_exists_first(s, p, j);
        }
    }
    lemma_first_where_is(t, p, s.len() as int);
}

/// Registration keeps names unique: a registry that only grew by accepted
/// registrations holds no two skills with the same name.
pub proof fn lemma_register_keeps_names_unique(s: Seq<SkillView>, skill: SkillView)
    requires
        names_unique(s),
        first_where(s, has_name(skill.metadata.name)) is None,
    ensures
        names_unique(s.push(skill)),
{
    let t = s.push(skill);
    assert forall|i: int, j: int| 0 <= i < j < t.len() implies #[trigger] t[i].metadata.name
        != #[trigger] t[j].metadata.name by {
        if j == s.len() {
            assert(t[i] == s[i]);
            if s[i].metadata.name == skill.metadata.name {
                assert(has_name(skill.metadata.name)(s[i]));
                lemma_exists_first(s, has_name(skill.metadata.name), i);
            }
        } else {
            assert(t[i] == s[i] && t[j] == s[j]);
        }
    }
}

/// After a skill is unregistered, no skill with its identifier is left.
pub proof fn lemma_unregistered_not_found(s: Seq<SkillView>, id: Seq<char>)
    ensures
        first_where(s.filter(other_id(id)), has_id(id)) is None,
{
    let t = s.filter(other_id(id));
    assert forall|j: int| 0 <= j < t.len() implies !has_id(id)(#[trigger] t[j]) by {
        s.lemma_filter_pred(other_id(id), j);
    }
    lemma_first_where_none(t, has_id(id));
}

/// Why a registration was refused.
#[derive(Debug)]
pub enum SkillError {
    /// A skill with this name is already registered.
    AlreadyRegistered(String),
}

impl SkillError {
    /// The error's text: "Skill '<name>' is already registered".
    pub fn message(&self) -> (r: String)
        ensures
            match self {
                SkillError::AlreadyRegistered(name) => r@ == "Skill '"@ + name@
                    + "' is already registered"@,
            },
    {
        match self {
            SkillError::AlreadyRegistered(name) => {
                let mut v = to_chars("Skill '");
                crate::text::append_chars(&mut v, to_chars(name.as_str()).as_slice());
                crate::text::append_chars(&mut v, to_chars("' is already registered").as_slice());
                crate::text::from_chars(v.as_slice())
            },
        }
    }
}

/// Skill registry for managing available skills.
pub struct SkillRegistry {
    skills: Vec<Skill>,
}

impl View for SkillRegistry {
    type V = Seq<SkillView>;

    closed spec fn view(&self) -> Seq<SkillView> {
        views(self.skills@)
    }
}

fn builtin(
    name: &str,
    description: &str,
    category: SkillCategory,
    tag1: &str,
    tag2: &str,
    tag3: &str,
    example: &str,
) -> (m: SkillMetadata)
    ensures
        m@ == builtin_metadata(name@, description@, category, seq![tag1@, tag2@, tag3@], example@),
{
    let mut tags: Vec<String> = Vec::new();
    tags.push(owned(tag1));
    tags.push(owned(tag2));
    tags.push(owned(tag3));
    let mut examples: Vec<String> = Vec::new();
    examples.push(owned(example));
    assert(texts(tags@) =~= seq![tag1@, tag2@, tag3@]);
    assert(texts(examples@) =~= seq![example@]);
    SkillMetadata {
        name: owned(name),
        description: owned(description),
        category,
        version: owned("1.0.0"),
        author: Some(owned("RoBoT")),
        tags,
        examples,
    }
}

impl SkillRegistry {
    /// Create an empty registry.
    pub fn new() -> (r: SkillRegistry)
        ensures
            r@ == Seq::<SkillView>::empty(),
    {
        let r = SkillRegistry { skills: Vec::new() };
        assert(r@ =~= Seq::<SkillView>::empty());
        r
    }

    fn position_where_id(&self, skill_id: &str) -> (r: Option<usize>)
        ensures
            match r {
                Some(i) => first_where(self@, has_id(skill_id@)) == Some(i as int),
                None => first_where(self@, has_id(skill_id@)) is None,
            },
    {
        let mut i: usize = 0;
        while i < self.skills.len()
            invariant
                i <= self.skills@.len(),
                self@ == views(self.skills@),
                forall|j: int| 0 <= j < i ==> !has_id(skill_id@)(#[trigger] self@[j]),
            decreases self.skills@.len() - i,
        {
            if str_eq(self.skills[i].id.as_str(), skill_id) {
                proof {
                    assert(has_id(skill_id@)(self@[i as int]));
                    lemma_first_where_is(self@, has_id(skill_id@), i as int);
                }
                return Some(i);
            }
            assert(!has_id(skill_id@)(self@[i as int]));
            i += 1;
        }
        proof {
            lemma_first_where_none(self@, has_id(skill_id@));
        }
        None
    }

    fn position_where_name(&self, name: &str) -> (r: Option<usize>)
        ensures
            match r {
                Some(i) => first_where(self@, has_name(name@)) == Some(i as int),
                None => first_where(self@, has_name(name@)) is None,
            },
    {
        let mut i: usize = 0;
        while i < self.skills.len()
            invariant
                i <= self.skills@.len(),
                self@ == views(self.skills@),
                forall|j: int| 0 <= j < i ==> !has_name(name@)(#[trigger] self@[j]),
            decreases self.skills@.len() - i,
        {
            if str_eq(self.skills[i].metadata.name.as_str(), name) {
                proof {
                    assert(has_name(name@)(self@[i as int]));
                    lemma_first_where_is(self@, has_name(name@), i as int);
                }
                return Some(i);
            }
            assert(!has_name(name@)(self@[i as int]));
            i += 1;
        }
        proof {
            lemma_first_where_none(self@, has_name(name@));
        }
        None
    }

    /// Register a new skill. Refused if a skill with the same name is
    /// registered; otherwise the skill is added at the end and its
    /// identifier returned.
    pub fn register(&mut self, skill: Skill) -> (r: Result<String, SkillError>)
        ensures
            match first_where(old(self)@, has_name(skill@.metadata.name)) {
                Some(_) => {
                    &&& final(self)@ == old(self)@
                    &&& r matches Err(SkillError::AlreadyRegistered(n)) && n@
                        == skill@.metadata.name
                },
                None => {
                    &&& final(self)@ == old(self)@.push(skill@)
                    &&& r matches Ok(id) && id@ == skill@.id
                },
            },
    {
        match self.position_where_name(skill.metadata.name.as_str()) {
            Some(_) => Err(SkillError::AlreadyRegistered(skill.metadata.name)),
            None => {
                let id = skill.id.clone();
                let ghost before = self.skills@;
                self.skills.push(skill);
                assert(views(self.skills@) =~= views(before).push(self.skills@.last()@));
                Ok(id)
            },
        }
    }

    /// Remove every skill with the given identifier. Always succeeds.
    pub fn unregister(&mut self, skill_id: &str) -> (r: Result<(), SkillError>)
        ensures
            final(self)@ == old(self)@.filter(other_id(skill_id@)),
            r is Ok,
    {
        let ghost start = self@;
        let mut kept: Vec<Skill> = Vec::new();
        let mut taken: Vec<Skill> = Vec::new();
        std::mem::swap(&mut taken, &mut self.skills);
        assert(views(taken@) == start);
        let mut i: usize = 0;
        while i < taken.len()
            invariant
                i <= taken@.len(),
                views(taken@) == start,
                views(kept@) == start.take(i as int).filter(other_id(skill_id@)),
            decreases taken@.len() - i,
        {
            proof {
                assert(start.take(i + 1).drop_last() =~= start.take(i as int));
                reveal_with_fuel(Seq::filter, 1);
                assert(start[i as int] == taken@[i as int]@);
            }
            if !str_eq(taken[i].id.as_str(), skill_id) {
                let ghost before = kept@;
                kept.push(taken[i].clone());
                assert(views(kept@) =~= views(before).push(start[i as int]));
            }
            i += 1;
        }
        assert(start.take(taken@.len() as int) =~= start);
        self.skills = kept;
        Ok(())
    }

    fn set_enabled(&mut self, skill_id: &str, enabled: bool)
        ensures
            match first_where(old(self)@, has_id(skill_id@)) {
                Some(i) => final(self)@ == old(self)@.update(
                    i,
                    SkillView { enabled, ..old(self)@[i] },
                ),
                None => final(self)@ == old(self)@,
            },
    {
        match self.position_where_id(skill_id) {
            Some(i) => {
                let ghost before = self@;
                let mut sk = self.skills.remove(i);
                sk.enabled = enabled;
                self.skills.insert(i, sk);
                assert(self@ =~= before.update(i as int, SkillView { enabled, ..before[i as int] }));
            },
            None => {},
        }
    }

    /// Enable the first skill with the given identifier, if there is one.
    /// Always succeeds.
    pub fn enable(&mut self, skill_id: &str) -> (r: Result<(), SkillError>)
        ensures
            match first_where(old(self)@, has_id(skill_id@)) {
                Some(i) => final(self)@ == old(self)@.update(
                    i,
                    SkillView { enabled: true, ..old(self)@[i] },
                ),
                None => final(self)@ == old(self)@,
            },
            r is Ok,
    {
        self.set_enabled(skill_id, true);
        Ok(())
    }

    /// Disable the first skill with the given identifier, if there is one.
    /// Always succeeds.
    pub fn disable(&mut self, skill_id: &str) -> (r: Result<(), SkillError>)
        ensures
            match first_where(old(self)@, has_id(skill_id@)) {
                Some(i) => final(self)@ == old(self)@.update(
                    i,
                    SkillView { enabled: false, ..old(self)@[i] },
                ),
                None => final(self)@ == old(self)@,
            },
            r is Ok,
    {
        self.set_enabled(skill_id, false);
        Ok(())
    }

    /// The first skill with the given identifier.
    pub fn get(&self, skill_id: &str) -> (r: Option<Skill>)
        ensures
            match first_where(self@, has_id(skill_id@)) {
                Some(i) => r matches Some(s) && s@ == self@[i],
                None => r is None,
            },
    {
        match self.position_where_id(skill_id) {
            Some(i) => Some(self.skills[i].clone()),
            None => None,
        }
    }

    /// The first skill with the given name.
    pub fn get_by_name(&self, name: &str) -> (r: Option<Skill>)
        ensures
            match first_where(self@, has_name(name@)) {
                Some(i) => r matches Some(s) && s@ == self@[i],
                None => r is None,
            },
    {
        match self.position_where_name(name) {
            Some(i) => Some(self.skills[i].clone()),
            None => None,
        }
    }

    /// All skills, in registration order.
    pub fn list(&self) -> (r: Vec<Skill>)
        ensures
            views(r@) == self@,
    {
        let mut r: Vec<Skill> = Vec::new();
        let mut i: usize = 0;
        while i < self.skills.len()
            invariant
                i <= self.skills@.len(),
                views(r@) == self@.take(i as int),
                self@ == views(self.skills@),
            decreases self.skills@.len() - i,
        {
            let ghost before = r@;
            r.push(self.skills[i].clone());
            assert(views(r@) =~= views(before).push(self@[i as int]));
            assert(self@.take(i + 1) =~= self@.take(i as int).push(self@[i as int]));
            i += 1;
        }
        assert(self@.take(self@.len() as int) =~= self@);
        r
    }

    /// The enabled skills, in registration order.
    pub fn list_enabled(&self) -> (r: Vec<Skill>)
        ensures
            views(r@) == self@.filter(enabled_skill()),
    {
        let mut r: Vec<Skill> = Vec::new();
        let mut i: usize = 0;
        while i < self.skills.len()
            invariant
                i <= self.skills@.len(),
                self@ == views(self.skills@),
                views(r@) == self@.take(i as int).filter(enabled_skill()),
            decreases self.skills@.len() - i,
        {
            proof {
                assert(self@.take(i + 1).drop_last() =~= self@.take(i as int));
                reveal_with_fuel(Seq::filter, 1);
            }
            if self.skills[i].enabled {
                let ghost before = r@;
                r.push(self.skills[i].clone());
                assert(views(r@) =~= views(before).push(self@[i as int]));
            }
            i += 1;
        }
        assert(self@.take(self@.len() as int) =~= self@);
        r
    }

    /// The skills of a category, in registration order.
    pub fn list_by_category(&self, category: SkillCategory) -> (r: Vec<Skill>)
        ensures
            views(r@) == self@.filter(in_category(category)),
    {
        let mut r: Vec<Skill> = Vec::new();
        let mut i: usize = 0;
        while i < self.skills.len()
            invariant
                i <= self.skills@.len(),
                self@ == views(self.skills@),
                views(r@) == self@.take(i as int).filter(in_category(category)),
            decreases self.skills@.len() - i,
        {
            proof {
                assert(self@.take(i + 1).drop_last() =~= self@.take(i as int));
                reveal_with_fuel(Seq::filter, 1);
            }
            if self.skills[i].metadata.category == category {
                let ghost before = r@;
                r.push(self.skills[i].clone());
                assert(views(r@) =~= views(before).push(self@[i as int]));
            }
            i += 1;
        }
        assert(self@.take(self@.len() as int) =~= self@);
        r
    }

    /// The skills with a tag containing `tag`, in registration order.
    pub fn search_by_tag(&self, tag: &str) -> (r: Vec<Skill>)
        ensures
            views(r@) == self@.filter(has_tag_containing(tag@)),
    {
        let tag_chars = to_chars(tag);
        let mut r: Vec<Skill> = Vec::new();
        let mut i: usize = 0;
        while i < self.skills.len()
            invariant
                i <= self.skills@.len(),
                self@ == views(self.skills@),
                tag_chars@ == tag@,
                views(r@) == self@.take(i as int).filter(has_tag_containing(tag@)),
            decreases self.skills@.len() - i,
        {
            proof {
                assert(self@.take(i + 1).drop_last() =~= self@.take(i as int));
                reveal_with_fuel(Seq::filter, 1);
            }
            let tags = &self.skills[i].metadata.tags;
            let mut found = false;
            let mut k: usize = 0;
            while k < tags.len()
                invariant
                    k <= tags@.len(),
                    tags@ == self.skills@[i as int].metadata.tags@,
                    self@ == views(self.skills@),
                    i < self.skills@.len(),
                    tag_chars@ == tag@,
                    found == exists|m: int| 0 <= m < k && contains(#[trigger] tags@[m]@, tag@),
                decreases tags@.len() - k,
            {
                let t = to_chars(tags[k].as_str());
                if contains_chars(t.as_slice(), tag_chars.as_slice()) {
                    found = true;
                }
                k += 1;
            }
            proof {
                let sv = self@[i as int];
                assert(sv.metadata.tags == texts(tags@));
                if found {
                    let m = choose|m: int| 0 <= m < tags@.len() && contains(#[trigger] tags@[m]@, tag@);
                    assert(sv.metadata.tags[m] == tags@[m]@);
                    assert(has_tag_containing(tag@)(sv));
                } else {
                    assert forall|m: int| 0 <= m < sv.metadata.tags.len() implies !contains(
                        #[trigger] sv.metadata.tags[m],
                        tag@,
                    ) by {
                        assert(sv.metadata.tags[m] == tags@[m]@);
                    }
                    assert(!has_tag_containing(tag@)(sv));
                }
            }
            if found {
                let ghost before = r@;
                r.push(self.skills[i].clone());
                assert(views(r@) =~= views(before).push(self@[i as int]));
            }
            i += 1;
        }
        assert(self@.take(self@.len() as int) =~= self@);
        r
    }

    /// Record a use of the first skill with the given identifier, if there
    /// is one. `mastery_bits` is that skill's new mastery, worked out by the
    /// caller. Always succeeds.
    pub fn record_usage(&mut self, skill_id: &str, success: bool, mastery_bits: u32) -> (r: Result<
        (),
        SkillError,
    >)
        requires
            match first_where(old(self)@, has_id(skill_id@)) {
                Some(i) => can_record(old(self)@[i]),
                None => true,
            },
        ensures
            r is Ok,
            match first_where(old(self)@, has_id(skill_id@)) {
                Some(i) => {
                    &&& final(self)@.len() == old(self)@.len()
                    &&& forall|j: int|
                        0 <= j < old(self)@.len() && j != i ==> final(self)@[j] == old(self)@[j]
                    &&& after_usage(old(self)@[i], final(self)@[i], success, mastery_bits)
                },
                None => final(self)@ == old(self)@,
            },
    {
        match self.position_where_id(skill_id) {
            Some(i) => {
                let ghost before = self@;
                let mut sk = self.skills.remove(i);
                assert(sk@ == before[i as int]);
                sk.record_usage(success, mastery_bits);
                let ghost after = sk@;
                self.skills.insert(i, sk);
                assert(self@ =~= before.update(i as int, after));
            },
            None => {},
        }
        Ok(())
    }

    /// Replace the mastery of the skill at `index`, as `f32` bits. This is
    /// how the caller applies its floating-point updates, such as decay of
    /// unused skills.
    pub fn set_mastery(&mut self, index: usize, mastery_bits: u32)
        requires
            index < old(self)@.len(),
        ensures
            final(self)@ == old(self)@.update(
                index as int,
                SkillView { mastery_bits, ..old(self)@[index as int] },
            ),
    {
        let ghost before = self@;
        let mut sk = self.skills.remove(index);
        sk.mastery_bits = mastery_bits;
        self.skills.insert(index, sk);
        assert(self@ =~= before.update(
            index as int,
            SkillView { mastery_bits, ..before[index as int] },
        ));
    }

    /// The `limit` most used skills, most used first; skills used equally
    /// often keep their registration order.
    pub fn get_most_used(&self, limit: usize) -> (r: Vec<Skill>)
        ensures
            views(r@) == by_usage_desc(self@).take(
                if limit < self@.len() {
                    limit as int
                } else {
                    self@.len() as int
                },
            ),
            usage_descending(views(r@)),
    {
        let mut r: Vec<Skill> = Vec::new();
        let mut i: usize = 0;
        while i < self.skills.len()
            invariant
                i <= self.skills@.len(),
                self@ == views(self.skills@),
                views(r@) == by_usage_desc(self@.take(i as int)),
            decreases self.skills@.len() - i,
        {
            let x = self.skills[i].clone();
            let u = x.usage_count;
            proof {
                lemma_by_usage_desc(self@.take(i as int));
            }
            let mut k: usize = 0;
            while k < r.len() && !(r[k].usage_count < u)
                invariant
                    k <= r@.len(),
                    forall|j: int| 0 <= j < k ==> !used_less_than(u)(#[trigger] views(r@)[j]),
                decreases r@.len() - k,
            {
                assert(!used_less_than(u)(views(r@)[k as int]));
                k += 1;
            }
            proof {
                let rv = views(r@);
                if k < r@.len() {
                    assert(used_less_than(u)(rv[k as int]));
                    lemma_first_where_is(rv, used_less_than(u), k as int);
                } else {
                    lemma_first_where_none(rv, used_less_than(u));
                }
                assert(usage_slot(rv, u) == k);
                assert(self@.take(i + 1).drop_last() =~= self@.take(i as int));
                assert(self@.take(i + 1).last() == x@);
            }
            let ghost before = views(r@);
            r.insert(k, x);
            assert(views(r@) =~= before.insert(k as int, self@[i as int]));
            i += 1;
        }
        assert(self@.take(self@.len() as int) =~= self@);
        proof {
            lemma_by_usage_desc(self@);
        }
        let ghost full = views(r@);
        r.truncate(limit);
        assert(views(r@) =~= full.take(
            if limit < self@.len() {
                limit as int
            } else {
                self@.len() as int
            },
        ));
        r
    }

    /// The skills ready to use (enabled, mastery at least 0.3), in
    /// registration order.
    pub fn get_ready_skills(&self) -> (r: Vec<Skill>)
        ensures
            views(r@) == self@.filter(ready_skill()),
    {
        let mut r: Vec<Skill> = Vec::new();
        let mut i: usize = 0;
        while i < self.skills.len()
            invariant
                i <= self.skills@.len(),
                self@ == views(self.skills@),
                views(r@) == self@.take(i as int).filter(ready_skill()),
            decreases self.skills@.len() - i,
        {
            proof {
                assert(self@.take(i + 1).drop_last() =~= self@.take(i as int));
                reveal_with_fuel(Seq::filter, 1);
            }
            if self.skills[i].is_ready() {
                let ghost before = r@;
                r.push(self.skills[i].clone());
                assert(views(r@) =~= views(before).push(self@[i as int]));
            }
            i += 1;
        }
        assert(self@.take(self@.len() as int) =~= self@);
        r
    }

    /// Replace the registry's contents with the built-in skills: reading,
    /// writing and searching files, and storing and recalling memories.
    pub fn load_defaults(&mut self)
        ensures
            final(self)@.len() == default_metadata().len(),
            forall|i: int|
                0 <= i < final(self)@.len() ==> fresh_skill(
                    #[trigger] final(self)@[i],
                    default_metadata()[i],
                ),
    {
        let mut defaults: Vec<Skill> = Vec::new();
        defaults.push(Skill::new(builtin("file_read", "Read contents of a file",
            SkillCategory::FileOperation, "file", "read", "io", "Read file at path /src/main.rs")));
        defaults.push(Skill::new(builtin("file_write", "Write contents to a file",
            SkillCategory::FileOperation, "file", "write", "io",
            "Write content to /src/output.txt")));
        defaults.push(Skill::new(builtin("search", "Search for patterns in files",
            SkillCategory::Search, "search", "grep", "find", "Search for 'TODO' in all .rs files")));
        defaults.push(Skill::new(builtin("memory_store", "Store information in memory",
            SkillCategory::Memory, "memory", "store", "persist",
            "Store that project uses Rust edition 2024")));
        defaults.push(Skill::new(builtin("memory_recall", "Recall information from memory",
            SkillCategory::Memory, "memory", "recall", "retrieve",
            "Recall all information about the database schema")));
        self.skills = defaults;
        assert forall|i: int|
            0 <= i < self@.len() implies fresh_skill(#[trigger] self@[i], default_metadata()[i]) by {
            assert(self@[i] == self.skills@[i]@);
        }
    }

    /// Counts of skills by origin, and of mastered skills (mastery at least
    /// 0.8).
    pub fn get_discovery_stats(&self) -> (r: SkillDiscoveryStats)
        ensures
            r.total_skills == self@.len(),
            r.manual_skills == self@.filter(manual_skill()).len(),
            r.discovered_skills == self@.filter(discovered_skill()).len(),
            r.learned_skills == self@.filter(learned_skill()).len(),
            r.mastered_skills == self@.filter(mastered_skill()).len(),
    {
        let mut manual: usize = 0;
        let mut discovered: usize = 0;
        let mut learned: usize = 0;
        let mut mastered: usize = 0;
        let mut i: usize = 0;
        while i < self.skills.len()
            invariant
                i <= self.skills@.len(),
                self@ == views(self.skills@),
                manual == self@.take(i as int).filter(manual_skill()).len(),
                discovered == self@.take(i as int).filter(discovered_skill()).len(),
                learned == self@.take(i as int).filter(learned_skill()).len(),
                mastered == self@.take(i as int).filter(mastered_skill()).len(),
                manual <= i,
                discovered <= i,
                learned <= i,
                mastered <= i,
            decreases self.skills@.len() - i,
        {
            proof {
                assert(self@.take(i + 1).drop_last() =~= self@.take(i as int));
                reveal_with_fuel(Seq::filter, 1);
            }
            match &self.skills[i].source {
                crate::skills::registry::SkillSource::Manual => {
                    manual += 1;
                },
                crate::skills::registry::SkillSource::Discovered { .. } => {
                    discovered += 1;
                },
                crate::skills::registry::SkillSource::Learned { .. } => {
                    learned += 1;
                },
            }
            let b = self.skills[i].mastery_bits;
            if MASTERED_MASTERY_BITS <= b && b <= MAX_MASTERY_BITS {
                mastered += 1;
            }
            i += 1;
        }
        assert(self@.take(self@.len() as int) =~= self@);
        SkillDiscoveryStats {
            total_skills: self.skills.len(),
            manual_skills: manual,
            discovered_skills: discovered,
            learned_skills: learned,
            mastered_skills: mastered,
        }
    }
}

impl Default for SkillRegistry {
    fn default() -> (r: Self)
        ensures
            r@ == Seq::<SkillView>::empty(),
    {
        Self::new()
    }
}

} // verus!

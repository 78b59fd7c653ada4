//! What the skill tools do with a registry: register and discover skills,
//! list, search and recommend them, and switch them on and off.

use vstd::prelude::*;
use crate::ids::{parse_uuid, uuid_parse};
use crate::skills::registry::{
    category_name, texts, MetadataView, SkillCategory, SkillMetadata, SourceView,
};
use crate::skills::registry::skill::{Skill, SkillView, READY_MASTERY_BITS};
use crate::skills::registry::store::{
    by_usage_desc, enabled_skill, first_where, fresh_skill, has_id, has_name, in_category,
    ready_skill, views, SkillRegistry,
};
use crate::text::{
    contains, contains_chars, lowercase_chars, owned, spec_to_lowercase, str_eq, to_chars,
};
use crate::tools::skills::{
    category_for, parse_category, DiscoverSkillInput, EnableDisableSkillInput,
    GetSkillRecommendationsInput, ListSkillsInput, RegisterSkillInput,
};

verus! {

/// The metadata a registration asks for. Without a version it is "1.0.0";
/// without tags or examples there are none.
pub open spec fn requested_metadata(input: RegisterSkillInput, category: SkillCategory) -> MetadataView {
    MetadataView {
        name: input.name@,
        description: input.description@,
        category,
        version: match input.version {
            Some(v) => v@,
            None => "1.0.0"@,
        },
        author: match input.author {
            Some(a) => Some(a@),
            None => None,
        },
        tags: match input.tags {
            Some(t) => texts(t@),
            None => Seq::empty(),
        },
        examples: match input.examples {
            Some(e) => texts(e@),
            None => Seq::empty(),
        },
    }
}

/// The text of a refused registration: "Skill '<name>' is already registered".
pub open spec fn already_registered_message(name: Seq<char>) -> Seq<char> {
    "Skill '"@ + name + "' is already registered"@
}

/// The registry after a registration of a skill named `name`: unchanged
/// when the name is taken, else one skill longer, the new skill last,
/// satisfying `added`.
pub open spec fn registered_as(
    before: Seq<SkillView>,
    after: Seq<SkillView>,
    name: Seq<char>,
    r: Result<String, String>,
    added: spec_fn(SkillView) -> bool,
) -> bool {
    match first_where(before, has_name(name)) {
        Some(_) => {
            &&& after == before
            &&& r matches Err(m) && m@ == already_registered_message(name)
        },
        None => {
            &&& after.len() > 0
            &&& after == before.push(after.last())
            &&& added(after.last())
            &&& r matches Ok(id) && id@ == after.last().id
        },
    }
}

/// Register a skill from the tool's input. The category is read as
/// `parse_category` reads it; an unknown one is refused with its message
/// and nothing changes. Otherwise the new skill is registered as
/// `SkillRegistry::register` does, and its identifier returned.
pub fn register_skill(registry: &mut SkillRegistry, input: RegisterSkillInput) -> (r: Result<
    String,
    String,
>)
    ensures
        match category_for(spec_to_lowercase(input.category@)) {
            None => {
                &&& final(registry)@ == old(registry)@
                &&& r matches Err(m) && m@ == "Unknown skill category: "@ + input.category@
            },
            Some(c) => registered_as(
                old(registry)@,
                final(registry)@,
                input.name@,
                r,
                |s: SkillView| fresh_skill(s, requested_metadata(input, c)),
            ),
        },
{
    let category = match parse_category(input.category.as_str()) {
        Ok(c) => c,
        Err(m) => return Err(m),
    };
    let ghost wanted = requested_metadata(input, category);
    let ghost before = registry@;
    let version = match input.version {
        Some(v) => v,
        None => owned("1.0.0"),
    };
    let tags = match input.tags {
        Some(t) => t,
        None => Vec::new(),
    };
    let examples = match input.examples {
        Some(e) => e,
        None => Vec::new(),
    };
    let metadata = SkillMetadata {
        name: input.name,
        description: input.description,
        category,
        version,
        author: input.author,
        tags,
        examples,
    };
    assert(metadata@.tags =~= wanted.tags);
    assert(metadata@.examples =~= wanted.examples);
    let skill = Skill::new(metadata);
    let out = registry.register(skill);
    match out {
        Ok(id) => Ok(id),
        Err(e) => Err(e.message()),
    }
}

/// A skill just discovered from an experience: `Skill::discovered`'s
/// metadata, mastery 0.3, no use yet, and the experience as its source.
pub open spec fn fresh_discovery(
    s: SkillView,
    name: Seq<char>,
    description: Seq<char>,
    category: SkillCategory,
    experience: Seq<char>,
) -> bool {
    &&& s.id.len() == 36
    &&& s.metadata == (MetadataView {
        name,
        description,
        category,
        version: "1.0.0-discovered"@,
        author: Some("RoBoT-Experience"@),
        tags: seq!["discovered"@, "learned"@],
        examples: Seq::empty(),
    })
    &&& s.enabled
    &&& s.usage_count == 0
    &&& s.success_count == 0
    &&& s.failure_count == 0
    &&& s.last_used is None
    &&& s.mastery_bits == READY_MASTERY_BITS
    &&& s.last_practiced is None
    &&& s.prerequisites.len() == 0
    &&& s.source == SourceView::Discovered(experience)
}

/// Register a skill discovered from an experience, given what parsing the
/// experience's identifier gave (`uuid_parse`). A parse error is refused
/// with "Invalid experience ID: " and its text; then an unknown category is
/// refused; otherwise the skill is registered with the parsed identifier.
pub fn discover_skill_parsed(
    registry: &mut SkillRegistry,
    input: DiscoverSkillInput,
    parsed: Result<String, String>,
) -> (r: Result<String, String>)
    ensures
        match parsed {
            Err(e) => {
                &&& final(registry)@ == old(registry)@
                &&& r matches Err(m) && m@ == "Invalid experience ID: "@ + e@
            },
            Ok(u) => match category_for(spec_to_lowercase(input.category@)) {
                None => {
                    &&& final(registry)@ == old(registry)@
                    &&& r matches Err(m) && m@ == "Unknown skill category: "@ + input.category@
                },
                Some(c) => registered_as(
                    old(registry)@,
                    final(registry)@,
                    input.name@,
                    r,
                    |s: SkillView| fresh_discovery(s, input.name@, input.description@, c, u@),
                ),
            },
        },
{
    let experience_id = match parsed {
        Ok(u) => u,
        Err(e) => {
            let mut m = owned("Invalid experience ID: ");
            m.append(e.as_str());
            assert(m@ == "Invalid experience ID: "@ + e@);
            return Err(m);
        },
    };
    let category = match parse_category(input.category.as_str()) {
        Ok(c) => c,
        Err(m) => return Err(m),
    };
    let skill = Skill::discovered(input.name, input.description, category, experience_id);
    let out = registry.register(skill);
    match out {
        Ok(id) => Ok(id),
        Err(e) => Err(e.message()),
    }
}

/// Register a skill discovered from an experience: parse the experience's
/// identifier, then go on as `discover_skill_parsed`.
pub fn discover_skill(registry: &mut SkillRegistry, input: DiscoverSkillInput) -> (r: Result<
    String,
    String,
>)
    ensures
        match uuid_parse(input.source_experience_id@) {
            Err(e) => {
                &&& final(registry)@ == old(registry)@
                &&& r matches Err(m) && m@ == "Invalid experience ID: "@ + e
            },
            Ok(u) => match category_for(spec_to_lowercase(input.category@)) {
                None => {
                    &&& final(registry)@ == old(registry)@
                    &&& r matches Err(m) && m@ == "Unknown skill category: "@ + input.category@
                },
                Some(c) => registered_as(
                    old(registry)@,
                    final(registry)@,
                    input.name@,
                    r,
                    |s: SkillView| fresh_discovery(s, input.name@, input.description@, c, u),
                ),
            },
        },
{
    let parsed = parse_uuid(input.source_experience_id.as_str());
    discover_skill_parsed(registry, input, parsed)
}

/// The skills a listing shows: those of the category asked for (an
/// unknown category is refused), else the enabled ones when only those are
/// asked for, else all, in registration order. The limit is not applied.
pub fn list_skills(registry: &SkillRegistry, input: &ListSkillsInput) -> (r: Result<
    Vec<Skill>,
    String,
>)
    ensures
        match input.category {
            Some(c) => match category_for(spec_to_lowercase(c@)) {
                None => (r matches Err(m) && m@ == "Unknown skill category: "@ + c@),
                Some(cat) => (r matches Ok(v) && views(v@) == registry@.filter(in_category(cat))),
            },
            None => (r matches Ok(v) && views(v@) == (if input.enabled_only == Some(true) {
                registry@.filter(enabled_skill())
            } else {
                registry@
            })),
        },
{
    match &input.category {
        Some(c) => {
            let cat = parse_category(c.as_str())?;
            Ok(registry.list_by_category(cat))
        },
        None => {
            if input.enabled_only == Some(true) {
                Ok(registry.list_enabled())
            } else {
                Ok(registry.list())
            }
        },
    }
}

/// The first skill with an identifier, or "Skill not found: <id>".
pub fn find_skill(registry: &SkillRegistry, skill_id: &str) -> (r: Result<Skill, String>)
    ensures
        match first_where(registry@, has_id(skill_id@)) {
            Some(i) => (r matches Ok(s) && s@ == registry@[i]),
            None => (r matches Err(m) && m@ == "Skill not found: "@ + skill_id@),
        },
{
    match registry.get(skill_id) {
        Some(s) => Ok(s),
        None => {
            let mut m = owned("Skill not found: ");
            m.append(skill_id);
            Err(m)
        },
    }
}

/// Enable the skill when `enable` is true, else disable it (as
/// `SkillRegistry::enable` and `disable` do); returns whether it was
/// enabled.
pub fn enable_disable_skill(registry: &mut SkillRegistry, input: &EnableDisableSkillInput) -> (r:
    bool)
    ensures
        r == (input.enable == Some(true)),
        match first_where(old(registry)@, has_id(input.skill_id@)) {
            Some(i) => final(registry)@ == old(registry)@.update(
                i,
                SkillView { enabled: r, ..old(registry)@[i] },
            ),
            None => final(registry)@ == old(registry)@,
        },
{
    if input.enable == Some(true) {
        let _ = registry.enable(input.skill_id.as_str());
        true
    } else {
        let _ = registry.disable(input.skill_id.as_str());
        false
    }
}

/// A skill matches a search: the lower-cased query occurs in its lower-cased
/// name or description, and its category's name is the one asked for, if
/// any.
pub open spec fn matches_search(query: Seq<char>, category: Option<Seq<char>>) -> spec_fn(
    SkillView,
) -> bool {
    |s: SkillView|
        (contains(spec_to_lowercase(s.metadata.name), spec_to_lowercase(query)) || contains(
            spec_to_lowercase(s.metadata.description),
            spec_to_lowercase(query),
        )) && match category {
            Some(c) => category_name(s.metadata.category) == c,
            None => true,
        }
}

/// A search finds a registered skill exactly when its lower-cased name or
/// its lower-cased description holds the lower-cased query, and its
/// category's name is the one asked for, if any: a hit on the name alone
/// is enough, whatever the description says, and the other way round.
pub proof fn lemma_search_hits(
    registry: Seq<SkillView>,
    query: Seq<char>,
    category: Option<Seq<char>>,
    s: SkillView,
)
    ensures
        registry.filter(matches_search(query, category)).contains(s) <==> {
            &&& registry.contains(s)
            &&& (contains(spec_to_lowercase(s.metadata.name), spec_to_lowercase(query))
                || contains(spec_to_lowercase(s.metadata.description), spec_to_lowercase(query)))
            &&& (category matches Some(c) ==> category_name(s.metadata.category) == c)
        },
{
    broadcast use vstd::seq_lib::group_filter_ensures;

    let pred = matches_search(query, category);
    if registry.filter(pred).contains(s) {
        registry.lemma_filter_contains_rev(pred, s);
        let k = choose|k: int| 0 <= k < registry.filter(pred).len() && registry.filter(pred)[k] == s;
        assert(pred(registry.filter(pred)[k]));
    }
    if registry.contains(s) && pred(s) {
        let k = choose|k: int| 0 <= k < registry.len() && registry[k] == s;
        registry.lemma_filter_contains(pred, k);
    }
}

/// The skills that match a search, in registration order.
pub fn search_skills(registry: &SkillRegistry, query: &str, category: Option<&str>) -> (r: Vec<
    Skill,
>)
    ensures
        views(r@) == registry@.filter(
            matches_search(
                query@,
                match category {
                    Some(c) => Some(c@),
                    None => None,
                },
            ),
        ),
        forall|s: SkillView| #[trigger]
            views(r@).contains(s) <==> {
                &&& registry@.contains(s)
                &&& (contains(spec_to_lowercase(s.metadata.name), spec_to_lowercase(query@))
                    || contains(
                    spec_to_lowercase(s.metadata.description),
                    spec_to_lowercase(query@),
                ))
                &&& (category matches Some(c) ==> category_name(s.metadata.category) == c@)
            },
{
    let ghost cat = match category {
        Some(c) => Some(c@),
        None => None::<Seq<char>>,
    };
    let ghost pred = matches_search(query@, cat);
    let all = registry.list();
    let q = lowercase_chars(to_chars(query).as_slice());
    let mut r: Vec<Skill> = Vec::new();
    let mut i: usize = 0;
    while i < all.len()
        invariant
            i <= all@.len(),
            views(all@) == registry@,
            q@ == spec_to_lowercase(query@),
            pred == matches_search(query@, cat),
            cat == (match category {
                Some(c) => Some(c@),
                None => None::<Seq<char>>,
            }),
            views(r@) == registry@.take(i as int).filter(pred),
        decreases all@.len() - i,
    {
        proof {
            assert(registry@.take(i + 1).drop_last() =~= registry@.take(i as int));
            reveal_with_fuel(Seq::filter, 1);
            assert(registry@[i as int] == all@[i as int]@);
        }
        let s = &all[i];
        let name = lowercase_chars(to_chars(s.metadata.name.as_str()).as_slice());
        let desc = lowercase_chars(to_chars(s.metadata.description.as_str()).as_slice());
        let hit_query = contains_chars(name.as_slice(), q.as_slice()) || contains_chars(
            desc.as_slice(),
            q.as_slice(),
        );
        let hit_category = match category {
            Some(c) => str_eq(s.metadata.category.as_str(), c),
            None => true,
        };
        if hit_query && hit_category {
            let ghost before = r@;
            r.push(s.clone());
            assert(views(r@) =~= views(before).push(registry@[i as int]));
        }
        i += 1;
    }
    assert(registry@.take(all@.len() as int) =~= registry@);
    assert forall|s: SkillView| #[trigger] views(r@).contains(s) <==> {
        &&& registry@.contains(s)
        &&& (contains(spec_to_lowercase(s.metadata.name), spec_to_lowercase(query@)) || contains(
            spec_to_lowercase(s.metadata.description),
            spec_to_lowercase(query@),
        ))
        &&& (cat matches Some(c) ==> category_name(s.metadata.category) == c)
    } by {
        lemma_search_hits(registry@, query@, cat, s);
    }
    r
}

/// Why a skill is recommended.
#[derive(Debug, Clone, Copy, PartialEq, Eq, Structural)]
pub enum RecommendationReason {
    ReadyToUse,
    FrequentlyUsed,
}

/// A recommended skill and why.
#[derive(Debug)]
pub struct Recommendation {
    pub skill: Skill,
    pub reason: RecommendationReason,
}

/// The identifiers of some skills, in order.
pub open spec fn ids_of(s: Seq<SkillView>) -> Seq<Seq<char>> {
    s.map_values(|v: SkillView| v.id)
}

/// The skills of `s` whose identifier does not occur earlier in `s`.
pub open spec fn first_of_each_id(s: Seq<SkillView>) -> Seq<SkillView>
    decreases s.len(),
{
    if s.len() == 0 {
        Seq::empty()
    } else {
        let prev = first_of_each_id(s.drop_last());
        if ids_of(s.drop_last()).contains(s.last().id) {
            prev
        } else {
            prev.push(s.last())
        }
    }
}

/// `start` followed by the skills of `used` whose identifier is neither in
/// `ready` nor earlier in `used`, each taken only while the list is shorter
/// than `limit`.
pub open spec fn with_frequent(
    start: Seq<SkillView>,
    ready: Seq<SkillView>,
    used: Seq<SkillView>,
    limit: int,
) -> Seq<SkillView>
    decreases used.len(),
{
    if used.len() == 0 {
        start
    } else {
        let prev = with_frequent(start, ready, used.drop_last(), limit);
        let x = used.last();
        if !ids_of(ready).contains(x.id) && !ids_of(used.drop_last()).contains(x.id) && prev.len()
            < limit {
            prev.push(x)
        } else {
            prev
        }
    }
}

/// `s` cut to at most `n` items.
pub open spec fn at_most(s: Seq<SkillView>, n: nat) -> Seq<SkillView> {
    s.take(
        if n < s.len() {
            n as int
        } else {
            s.len() as int
        },
    )
}

/// The ready skills considered: the first `limit` of them.
pub open spec fn ready_considered(reg: Seq<SkillView>, limit: nat) -> Seq<SkillView> {
    at_most(reg.filter(ready_skill()), limit)
}

/// The skills recommended from a registry: first the ready skills (the
/// first `limit` of them, each identifier once), then the most used skills
/// (the `limit` most used) not already seen, while fewer than `limit` are
/// recommended.
pub open spec fn recommended(reg: Seq<SkillView>, limit: nat) -> Seq<SkillView> {
    with_frequent(
        first_of_each_id(ready_considered(reg, limit)),
        ready_considered(reg, limit),
        at_most(by_usage_desc(reg), limit),
        limit as int,
    )
}

/// No identifier occurs twice.
pub open spec fn distinct_ids(s: Seq<SkillView>) -> bool {
    forall|i: int, j: int| 0 <= i < j < s.len() ==> #[trigger] s[i].id != #[trigger] s[j].id
}

proof fn lemma_first_of_each_id(s: Seq<SkillView>)
    ensures
        first_of_each_id(s).len() <= s.len(),
        distinct_ids(first_of_each_id(s)),
        forall|k: int|
            0 <= k < first_of_each_id(s).len() ==> ids_of(s).contains(
                #[trigger] first_of_each_id(s)[k].id,
            ),
    decreases s.len(),
{
    if s.len() > 0 {
        let d = s.drop_last();
        lemma_first_of_each_id(d);
        let prev = first_of_each_id(d);
        assert forall|k: int| 0 <= k < prev.len() implies ids_of(s).contains(#[trigger] prev[k].id) by {
            let m = choose|m: int| 0 <= m < ids_of(d).len() && ids_of(d)[m] == prev[k].id;
            assert(ids_of(s)[m] == prev[k].id);
        }
        assert(ids_of(s)[s.len() - 1] == s.last().id);
        if !ids_of(d).contains(s.last().id) {
            let r = prev.push(s.last());
            assert forall|i: int, j: int| 0 <= i < j < r.len() implies #[trigger] r[i].id
                != #[trigger] r[j].id by {
                if j == r.len() - 1 {
                    assert(ids_of(d).contains(prev[i].id));
                }
            }
        }
    }
}

proof fn lemma_with_frequent(
    start: Seq<SkillView>,
    ready: Seq<SkillView>,
    used: Seq<SkillView>,
    limit: int,
)
    requires
        start.len() <= limit,
        distinct_ids(start),
        forall|k: int| 0 <= k < start.len() ==> ids_of(ready).contains(#[trigger] start[k].id),
    ensures
        with_frequent(start, ready, used, limit).len() <= limit,
        distinct_ids(with_frequent(start, ready, used, limit)),
        forall|k: int|
            0 <= k < with_frequent(start, ready, used, limit).len() ==> ids_of(ready).contains(
                #[trigger] with_frequent(start, ready, used, limit)[k].id,
            ) || ids_of(used).contains(with_frequent(start, ready, used, limit)[k].id),
    decreases used.len(),
{
    if used.len() > 0 {
        let d = used.drop_last();
        lemma_with_frequent(start, ready, d, limit);
        let prev = with_frequent(start, ready, d, limit);
        let x = used.last();
        assert(ids_of(used)[used.len() - 1] == x.id);
        assert forall|k: int| 0 <= k < prev.len() && !ids_of(ready).contains(prev[k].id)
            implies ids_of(used).contains(#[trigger] prev[k].id) by {
            let m = choose|m: int| 0 <= m < ids_of(d).len() && ids_of(d)[m] == prev[k].id;
            assert(ids_of(used)[m] == prev[k].id);
        }
        if !ids_of(ready).contains(x.id) && !ids_of(d).contains(x.id) && prev.len() < limit {
            let r = prev.push(x);
            assert forall|i: int, j: int| 0 <= i < j < r.len() implies #[trigger] r[i].id
                != #[trigger] r[j].id by {
                if j == r.len() - 1 {
                    assert(ids_of(ready).contains(prev[i].id) || ids_of(d).contains(prev[i].id));
                }
            }
        }
    }
}

/// Recommendations never exceed the limit, and no skill identifier is
/// recommended twice.
pub proof fn lemma_recommendations_bounded_and_distinct(reg: Seq<SkillView>, limit: nat)
    ensures
        recommended(reg, limit).len() <= limit,
        distinct_ids(recommended(reg, limit)),
{
    let ready = ready_considered(reg, limit);
    lemma_first_of_each_id(ready);
    lemma_with_frequent(
        first_of_each_id(ready),
        ready,
        at_most(by_usage_desc(reg), limit),
        limit as int,
    );
}

/// The skills of some recommendations.
pub open spec fn recommended_skills(r: Seq<Recommendation>) -> Seq<SkillView> {
    r.map_values(|x: Recommendation| x.skill@)
}

fn has_text(list: &Vec<String>, t: &str) -> (r: bool)
    ensures
        r == texts(list@).contains(t@),
{
    let mut i: usize = 0;
    while i < list.len()
        invariant
            i <= list@.len(),
            forall|j: int| 0 <= j < i ==> list@[j]@ != t@,
        decreases list@.len() - i,
    {
        if str_eq(list[i].as_str(), t) {
            assert(texts(list@)[i as int] == t@);
            return true;
        }
        i += 1;
    }
    assert(!texts(list@).contains(t@)) by {
        if texts(list@).contains(t@) {
            let k = choose|k: int| 0 <= k < texts(list@).len() && texts(list@)[k] == t@;
            assert(list@[k]@ == t@);
        }
    }
    false
}

/// Recommend up to `limit` skills: the ready ones first, then the most
/// used; see `recommended`. The ready ones come with `ReadyToUse`, the
/// others with `FrequentlyUsed`.
pub fn recommend_skills(registry: &SkillRegistry, limit: usize) -> (r: Vec<Recommendation>)
    ensures
        recommended_skills(r@) == recommended(registry@, limit as nat),
        forall|i: int|
            0 <= i < r@.len() ==> (#[trigger] r@[i]).reason == (if i < first_of_each_id(
                ready_considered(registry@, limit as nat),
            ).len() {
                RecommendationReason::ReadyToUse
            } else {
                RecommendationReason::FrequentlyUsed
            }),
{
    let ghost reg = registry@;
    let ghost ready = ready_considered(reg, limit as nat);
    let mut ready_all = registry.get_ready_skills();
    ready_all.truncate(limit);
    assert(views(ready_all@) =~= ready);
    let mut out: Vec<Recommendation> = Vec::new();
    let mut ready_ids: Vec<String> = Vec::new();
    let mut i: usize = 0;
    while i < ready_all.len()
        invariant
            i <= ready_all@.len(),
            views(ready_all@) == ready,
            texts(ready_ids@) == ids_of(ready.take(i as int)),
            recommended_skills(out@) == first_of_each_id(ready.take(i as int)),
            forall|k: int|
                0 <= k < out@.len() ==> (#[trigger] out@[k]).reason
                    == RecommendationReason::ReadyToUse,
        decreases ready_all@.len() - i,
    {
        let s = &ready_all[i];
        proof {
            assert(ready.take(i + 1).drop_last() =~= ready.take(i as int));
            assert(ready.take(i + 1).last() == s@);
            assert(ready[i as int] == s@);
        }
        let seen = has_text(&ready_ids, s.id.as_str());
        let ghost ids_before = ready_ids@;
        ready_ids.push(s.id.clone());
        assert(texts(ready_ids@) =~= texts(ids_before).push(s@.id));
        assert(ids_of(ready.take(i + 1)) =~= ids_of(ready.take(i as int)).push(s@.id));
        if !seen {
            let ghost before = out@;
            out.push(Recommendation { skill: s.clone(), reason: RecommendationReason::ReadyToUse });
            assert(recommended_skills(out@) =~= recommended_skills(before).push(s@));
        }
        i += 1;
    }
    assert(ready.take(ready_all@.len() as int) =~= ready);
    let ghost first = recommended_skills(out@);
    let ghost first_len = out@.len();
    let most = registry.get_most_used(limit);
    let ghost used = at_most(by_usage_desc(reg), limit as nat);
    proof {
        crate::skills::registry::store::lemma_by_usage_desc(reg);
    }
    assert(views(most@) == used);
    let mut used_ids: Vec<String> = Vec::new();
    let mut j: usize = 0;
    while j < most.len()
        invariant
            j <= most@.len(),
            views(most@) == used,
            texts(ready_ids@) == ids_of(ready),
            texts(used_ids@) == ids_of(used.take(j as int)),
            recommended_skills(out@) == with_frequent(first, ready, used.take(j as int), limit as int),
            first_len == first.len(),
            first_len <= out@.len(),
            forall|k: int|
                0 <= k < out@.len() ==> (#[trigger] out@[k]).reason == (if k < first_len {
                    RecommendationReason::ReadyToUse
                } else {
                    RecommendationReason::FrequentlyUsed
                }),
        decreases most@.len() - j,
    {
        let s = &most[j];
        proof {
            assert(used.take(j + 1).drop_last() =~= used.take(j as int));
            assert(used.take(j + 1).last() == s@);
            assert(used[j as int] == s@);
        }
        let in_ready = has_text(&ready_ids, s.id.as_str());
        let in_used = has_text(&used_ids, s.id.as_str());
        let ghost ids_before = used_ids@;
        used_ids.push(s.id.clone());
        assert(texts(used_ids@) =~= texts(ids_before).push(s@.id));
        assert(ids_of(used.take(j + 1)) =~= ids_of(used.take(j as int)).push(s@.id));
        if !in_ready && !in_used && out.len() < limit {
            let ghost before = out@;
            out.push(Recommendation { skill: s.clone(), reason: RecommendationReason::FrequentlyUsed });
            assert(recommended_skills(out@) =~= recommended_skills(before).push(s@));
        }
        j += 1;
    }
    assert(used.take(most@.len() as int) =~= used);
    out
}

/// The recommendations of the tool: `recommend_skills` with the limit
/// asked for, 5 by default. The category asked for is not applied.
pub fn get_skill_recommendations(registry: &SkillRegistry, input: &GetSkillRecommendationsInput) -> (r: Vec<
    Recommendation,
>)
    ensures
        recommended_skills(r@) == recommended(
            registry@,
            match input.limit {
                Some(l) => l as nat,
                None => 5,
            },
        ),
        forall|i: int|
            0 <= i < r@.len() ==> (#[trigger] r@[i]).reason == (if i < first_of_each_id(
                ready_considered(
                    registry@,
                    match input.limit {
                        Some(l) => l as nat,
                        None => 5,
                    },
                ),
            ).len() {
                RecommendationReason::ReadyToUse
            } else {
                RecommendationReason::FrequentlyUsed
            }),
{
    let limit: usize = match input.limit {
        Some(l) => l as usize,
        None => 5,
    };
    recommend_skills(registry, limit)
}

} // verus!

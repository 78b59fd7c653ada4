use robot_brain::json::JsonValue;
use robot_brain::skills::registry::context::ExecutionContext;
use robot_brain::skills::registry::executor::{ExecutionStep, SkillExecutor};
use robot_brain::skills::registry::skill::Skill;
use robot_brain::skills::registry::store::SkillRegistry;
use robot_brain::skills::registry::{SkillCategory, SkillMetadata, SkillSource};
use robot_brain::tools::skills::actions::{
    discover_skill, discover_skill_parsed, enable_disable_skill, find_skill,
    get_skill_recommendations, list_skills, recommend_skills, register_skill, search_skills,
    RecommendationReason,
};
use robot_brain::tools::skills::{
    DiscoverSkillInput, EnableDisableSkillInput, GetSkillRecommendationsInput, ListSkillsInput,
    RegisterSkillInput,
};

fn reg_input(name: &str, category: &str) -> RegisterSkillInput {
    RegisterSkillInput {
        name: name.to_string(),
        description: format!("{} things", name),
        category: category.to_string(),
        version: None,
        author: None,
        tags: None,
        examples: None,
    }
}

fn meta(name: &str, category: SkillCategory) -> SkillMetadata {
    SkillMetadata {
        name: name.to_string(),
        description: format!("{} things", name),
        category,
        version: "1.0.0".to_string(),
        author: None,
        tags: vec![],
        examples: vec![],
    }
}

#[test]
fn register_skill_defaults_and_errors() {
    let mut r = SkillRegistry::new();
    let id = register_skill(&mut r, reg_input("grep", "SEARCH")).unwrap();
    let s = r.get(&id).unwrap();
    assert_eq!(s.metadata.version, "1.0.0");
    assert_eq!(s.metadata.category, SkillCategory::Search);
    assert!(s.metadata.tags.is_empty());
    assert_eq!(
        register_skill(&mut r, reg_input("grep", "search")).unwrap_err(),
        "Skill 'grep' is already registered"
    );
    assert_eq!(
        register_skill(&mut r, reg_input("x", "cooking")).unwrap_err(),
        "Unknown skill category: cooking"
    );
    assert_eq!(r.list().len(), 1);
}

#[test]
fn discover_skill_parses_experience_id() {
    let mut r = SkillRegistry::new();
    let input = DiscoverSkillInput {
        name: "learned".to_string(),
        description: "from experience".to_string(),
        category: "db".to_string(),
        source_experience_id: "550E8400-E29B-41D4-A716-446655440000".to_string(),
    };
    let id = discover_skill(&mut r, input).unwrap();
    let s = r.get(&id).unwrap();
    assert_eq!(s.metadata.category, SkillCategory::Database);
    assert_eq!(s.metadata.version, "1.0.0-discovered");
    match &s.source {
        SkillSource::Discovered { experience_id } => {
            assert_eq!(experience_id, "550e8400-e29b-41d4-a716-446655440000")
        }
        _ => panic!("expected a discovered skill"),
    }
    let bad = DiscoverSkillInput {
        name: "other".to_string(),
        description: "d".to_string(),
        category: "db".to_string(),
        source_experience_id: "not-a-uuid".to_string(),
    };
    let err = discover_skill(&mut r, bad).unwrap_err();
    assert!(err.starts_with("Invalid experience ID: "));
    assert_eq!(r.list().len(), 1);
    let given = DiscoverSkillInput {
        name: "third".to_string(),
        description: "d".to_string(),
        category: "web".to_string(),
        source_experience_id: "x".to_string(),
    };
    assert_eq!(
        discover_skill_parsed(&mut r, given, Err("bad length".to_string())).unwrap_err(),
        "Invalid experience ID: bad length"
    );
}

#[test]
fn list_find_and_toggle_skills() {
    let mut r = SkillRegistry::new();
    r.register(Skill::new(meta("a", SkillCategory::Web))).unwrap();
    let b = r.register(Skill::new(meta("b", SkillCategory::Search))).unwrap();
    let off = enable_disable_skill(&mut r, &EnableDisableSkillInput { skill_id: b.clone(), enable: None });
    assert!(!off);
    let enabled = list_skills(
        &r,
        &ListSkillsInput { category: None, enabled_only: Some(true), limit: None },
    )
    .unwrap();
    assert_eq!(enabled.len(), 1);
    assert_eq!(enabled[0].metadata.name, "a");
    let all = list_skills(&r, &ListSkillsInput { category: None, enabled_only: None, limit: Some(1) }).unwrap();
    assert_eq!(all.len(), 2);
    let web = list_skills(
        &r,
        &ListSkillsInput { category: Some("web".to_string()), enabled_only: None, limit: None },
    )
    .unwrap();
    assert_eq!(web.len(), 1);
    assert_eq!(
        list_skills(&r, &ListSkillsInput { category: Some("nope".to_string()), enabled_only: None, limit: None })
            .unwrap_err(),
        "Unknown skill category: nope"
    );
    assert!(enable_disable_skill(&mut r, &EnableDisableSkillInput { skill_id: b.clone(), enable: Some(true) }));
    assert!(find_skill(&r, &b).unwrap().enabled);
    assert_eq!(find_skill(&r, "missing").unwrap_err(), "Skill not found: missing");
}

#[test]
fn search_matches_name_or_description_ignoring_case() {
    let mut r = SkillRegistry::new();
    r.register(Skill::new(meta("FileReader", SkillCategory::FileOperation))).unwrap();
    r.register(Skill::new(meta("web_fetch", SkillCategory::Web))).unwrap();
    assert_eq!(search_skills(&r, "reader", None).len(), 1);
    assert_eq!(search_skills(&r, "THINGS", None).len(), 2);
    assert_eq!(search_skills(&r, "things", Some("web")).len(), 1);
    assert_eq!(search_skills(&r, "things", Some("Web")).len(), 0);
}

#[test]
fn recommendations_ready_first_then_most_used() {
    let mut r = SkillRegistry::new();
    let a = r.register(Skill::new(meta("a", SkillCategory::Web))).unwrap();
    let b = r.register(Skill::new(meta("b", SkillCategory::Web))).unwrap();
    let c = r.register(Skill::new(meta("c", SkillCategory::Web))).unwrap();
    // c is disabled, so not ready, but it is the most used.
    r.record_usage(&c, true, 0.6f32.to_bits()).unwrap();
    r.record_usage(&c, true, 0.6f32.to_bits()).unwrap();
    r.disable(&c).unwrap();
    let recs = recommend_skills(&r, 5);
    let names: Vec<&str> = recs.iter().map(|x| x.skill.metadata.name.as_str()).collect();
    assert_eq!(names, vec!["a", "b", "c"]);
    assert_eq!(recs[0].reason, RecommendationReason::ReadyToUse);
    assert_eq!(recs[2].reason, RecommendationReason::FrequentlyUsed);
    let two = recommend_skills(&r, 2);
    assert_eq!(two.len(), 2);
    assert_eq!(two[0].skill.id, a);
    assert_eq!(two[1].skill.id, b);
    let dflt = get_skill_recommendations(&r, &GetSkillRecommendationsInput { limit: None, category: None });
    assert_eq!(dflt.len(), 3);
    assert!(recommend_skills(&r, 0).is_empty());
}

#[test]
fn executor_prepares_and_records() {
    let mut r = SkillRegistry::new();
    let web = r.register(Skill::new(meta("fetch", SkillCategory::Web))).unwrap();
    let mut needy = Skill::new(meta("needy", SkillCategory::Search));
    needy.prerequisites = vec!["fetch".to_string()];
    let needy_id = r.register(needy).unwrap();
    let mut ex = SkillExecutor::new(r);
    assert_eq!(
        ex.prepare("nope", &ExecutionContext::new("t".to_string())).unwrap_err(),
        "Skill not found: nope"
    );
    match ex.prepare(&needy_id, &ExecutionContext::new("t".to_string())).unwrap() {
        ExecutionStep::Refused { message, .. } => {
            assert_eq!(message, "Prerequisites not met for skill: needy")
        }
        _ => panic!("expected a refusal"),
    }
    match ex.prepare(&web, &ExecutionContext::new("get page".to_string())).unwrap() {
        ExecutionStep::Run { output, .. } => match output {
            JsonValue::Object(members) => {
                assert_eq!(members.len(), 3);
                assert_eq!(members[0].0, "task");
                assert!(matches!(&members[0].1, JsonValue::String(s) if s == "get page"));
                assert!(matches!(&members[1].1, JsonValue::String(s) if s == "Web"));
                assert!(matches!(&members[2].1, JsonValue::String(s) if s == "simulated"));
            }
            _ => panic!("expected an object"),
        },
        _ => panic!("expected a run"),
    }
    ex.record_execution(&web, true, 40, 0.55f32.to_bits());
    ex.record_execution(&web, false, 10, 0.5f32.to_bits());
    let m = ex.get_execution_metrics(&web).unwrap();
    assert_eq!(m.total_executions, 2);
    assert_eq!(m.successful_executions, 1);
    assert_eq!(m.failed_executions, 1);
    assert_eq!(m.min_duration_ms, Some(10));
    assert_eq!(m.max_duration_ms, Some(40));
    assert_eq!(m.consecutive_failures, 1);
    assert_eq!(ex.registry().get(&web).unwrap().usage_count, 2);
    assert_eq!(ex.get_all_metrics().len(), 1);
    ex.clear_metrics(&web);
    assert!(ex.get_execution_metrics(&web).is_none());
    ex.record_execution(&web, true, 5, 0.6f32.to_bits());
    ex.clear_all_metrics();
    assert_eq!(ex.get_all_metrics().len(), 0);
    assert_eq!(ex.into_registry().list().len(), 2);
}

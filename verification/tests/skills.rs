use robot_brain::skills::registry::metrics::ExecutionMetrics;
use robot_brain::skills::registry::skill::{
    Skill, MASTERED_MASTERY_BITS, MAX_MASTERY_BITS, NEUTRAL_MASTERY_BITS, READY_MASTERY_BITS,
};
use robot_brain::skills::registry::store::{SkillError, SkillRegistry};
use robot_brain::skills::registry::{SkillCategory, SkillMetadata, SkillSource};
use robot_brain::tools::skills::{
    prepare_skill_execution, simulated_execution_note, ExecuteSkillError, ExecuteSkillInput,
};

fn metadata(name: &str, category: SkillCategory, tags: &[&str]) -> SkillMetadata {
    SkillMetadata {
        name: name.to_string(),
        description: format!("{} skill", name),
        category,
        version: "1.0.0".to_string(),
        author: None,
        tags: tags.iter().map(|t| t.to_string()).collect(),
        examples: vec![],
    }
}

#[test]
fn test_mastery_constants_are_f32_bits() {
    assert_eq!(NEUTRAL_MASTERY_BITS, 0.5f32.to_bits());
    assert_eq!(READY_MASTERY_BITS, 0.3f32.to_bits());
    assert_eq!(MASTERED_MASTERY_BITS, 0.8f32.to_bits());
    assert_eq!(MAX_MASTERY_BITS, f32::INFINITY.to_bits());
}

#[test]
fn test_category_names() {
    assert_eq!(SkillCategory::FileOperation.as_str(), "file_operation");
    assert_eq!(SkillCategory::CodeAnalysis.as_str(), "code_analysis");
    assert_eq!(SkillCategory::Search.as_str(), "search");
    assert_eq!(SkillCategory::Memory.as_str(), "memory");
    assert_eq!(SkillCategory::Learning.as_str(), "learning");
    assert_eq!(SkillCategory::Planning.as_str(), "planning");
    assert_eq!(SkillCategory::Communication.as_str(), "communication");
    assert_eq!(SkillCategory::Web.as_str(), "web");
    assert_eq!(SkillCategory::Database.as_str(), "database");
    assert_eq!(SkillCategory::System.as_str(), "system");
    assert_eq!(SkillCategory::Custom.as_str(), "custom");
}

#[test]
fn test_new_skill_defaults() {
    let s = Skill::new(metadata("compile", SkillCategory::CodeAnalysis, &["rust"]));
    assert_eq!(s.id.len(), 36);
    assert!(s.enabled);
    assert_eq!(s.usage_count, 0);
    assert_eq!(f32::from_bits(s.mastery_bits), 0.5);
    assert!(s.last_used.is_none());
    assert!(matches!(s.source, SkillSource::Manual));
    let t = Skill::new(metadata("compile", SkillCategory::CodeAnalysis, &["rust"]));
    assert_ne!(s.id, t.id);
}

#[test]
fn test_discovered_skill() {
    let s = Skill::discovered(
        "optimize_query".to_string(),
        "Optimise a slow query".to_string(),
        SkillCategory::Database,
        "3f2b8c1e-0000-4000-8000-000000000001".to_string(),
    );
    assert_eq!(s.metadata.version, "1.0.0-discovered");
    assert_eq!(s.metadata.author.as_deref(), Some("RoBoT-Experience"));
    assert_eq!(s.metadata.tags, vec!["discovered".to_string(), "learned".to_string()]);
    assert!(s.metadata.examples.is_empty());
    assert_eq!(f32::from_bits(s.mastery_bits), 0.3);
    match &s.source {
        SkillSource::Discovered { experience_id } => {
            assert_eq!(experience_id, "3f2b8c1e-0000-4000-8000-000000000001")
        }
        _ => panic!("wrong source"),
    }
    assert!(s.is_ready());
}

#[test]
fn test_record_usage_counters() {
    let mut s = Skill::new(metadata("a", SkillCategory::Search, &[]));
    s.record_usage(true, 0.55f32.to_bits());
    assert_eq!((s.usage_count, s.success_count, s.failure_count), (1, 1, 0));
    assert!(s.last_used.is_some());
    assert!(s.last_practiced.is_some());
    assert_eq!(f32::from_bits(s.mastery_bits), 0.55);
    let practiced = s.last_practiced;
    s.record_usage(false, 0.5f32.to_bits());
    assert_eq!((s.usage_count, s.success_count, s.failure_count), (2, 1, 1));
    assert_eq!(s.last_practiced, practiced);
}

#[test]
fn test_is_ready_threshold() {
    let mut s = Skill::new(metadata("a", SkillCategory::Search, &[]));
    s.mastery_bits = 0.3f32.to_bits();
    assert!(s.is_ready());
    s.mastery_bits = 0.29f32.to_bits();
    assert!(!s.is_ready());
    s.mastery_bits = 1.0f32.to_bits();
    assert!(s.is_ready());
    s.mastery_bits = f32::NAN.to_bits();
    assert!(!s.is_ready());
    s.mastery_bits = (-0.5f32).to_bits();
    assert!(!s.is_ready());
    s.mastery_bits = 0.9f32.to_bits();
    s.enabled = false;
    assert!(!s.is_ready());
}

#[test]
fn test_prerequisites_met() {
    let mut s = Skill::new(metadata("deploy", SkillCategory::System, &[]));
    assert!(s.prerequisites_met(&[]));
    s.prerequisites = vec!["build".to_string(), "test".to_string()];
    assert!(!s.prerequisites_met(&[]));
    assert!(!s.prerequisites_met(&["build".to_string()]));
    assert!(s.prerequisites_met(&["test".to_string(), "lint".to_string(), "build".to_string()]));
}

#[test]
fn test_register_rejects_duplicate_name() {
    let mut r = SkillRegistry::new();
    let s = Skill::new(metadata("alpha", SkillCategory::Search, &[]));
    let id = s.id.clone();
    assert_eq!(r.register(s).ok(), Some(id.clone()));
    let dup = Skill::new(metadata("alpha", SkillCategory::Memory, &[]));
    match r.register(dup) {
        Err(e) => {
            assert!(matches!(&e, SkillError::AlreadyRegistered(n) if n == "alpha"));
            assert_eq!(e.message(), "Skill 'alpha' is already registered");
        }
        Ok(_) => panic!("duplicate accepted"),
    }
    assert_eq!(r.list().len(), 1);
    assert_eq!(r.get_by_name("alpha").map(|s| s.id), Some(id.clone()));
    assert_eq!(r.get(&id).map(|s| s.metadata.name), Some("alpha".to_string()));
    assert!(r.get("nope").is_none());
    assert!(r.get_by_name("beta").is_none());
}

#[test]
fn test_unregister_enable_disable() {
    let mut r = SkillRegistry::new();
    let a = Skill::new(metadata("a", SkillCategory::Search, &[]));
    let b = Skill::new(metadata("b", SkillCategory::Search, &[]));
    let (ia, ib) = (a.id.clone(), b.id.clone());
    r.register(a).unwrap();
    r.register(b).unwrap();
    assert!(r.disable(&ia).is_ok());
    assert!(!r.get(&ia).unwrap().enabled);
    let enabled: Vec<String> = r.list_enabled().into_iter().map(|s| s.id).collect();
    assert_eq!(enabled, vec![ib.clone()]);
    assert!(r.enable(&ia).is_ok());
    assert_eq!(r.list_enabled().len(), 2);
    assert!(r.disable("missing").is_ok());
    assert!(r.unregister(&ia).is_ok());
    assert!(r.get(&ia).is_none());
    assert_eq!(r.list().len(), 1);
    assert!(r.unregister(&ia).is_ok());
    assert_eq!(r.list().len(), 1);
}

#[test]
fn test_load_defaults_and_queries() {
    let mut r = SkillRegistry::new();
    r.load_defaults();
    let names: Vec<String> = r.list().into_iter().map(|s| s.metadata.name).collect();
    assert_eq!(names, vec!["file_read", "file_write", "search", "memory_store", "memory_recall"]);
    assert_eq!(r.list_by_category(SkillCategory::FileOperation).len(), 2);
    assert_eq!(r.list_by_category(SkillCategory::Memory).len(), 2);
    assert_eq!(r.list_by_category(SkillCategory::Web).len(), 0);
    let tagged: Vec<String> = r.search_by_tag("re").into_iter().map(|s| s.metadata.name).collect();
    assert_eq!(tagged, vec!["file_read", "search", "memory_store", "memory_recall"]);
    assert_eq!(r.search_by_tag("io").len(), 2);
    assert_eq!(r.get_ready_skills().len(), 5);
    let first = r.get_by_name("file_read").unwrap();
    assert_eq!(first.metadata.examples, vec!["Read file at path /src/main.rs".to_string()]);
    assert_eq!(first.metadata.author.as_deref(), Some("RoBoT"));
    let stats = r.get_discovery_stats();
    assert_eq!(stats.total_skills, 5);
    assert_eq!(stats.manual_skills, 5);
    assert_eq!(stats.discovered_skills, 0);
    assert_eq!(stats.learned_skills, 0);
    assert_eq!(stats.mastered_skills, 0);
}

#[test]
fn test_most_used_is_stable_and_truncated() {
    let mut r = SkillRegistry::new();
    r.load_defaults();
    let ids: Vec<String> = r.list().into_iter().map(|s| s.id).collect();
    // uses: file_read 1, file_write 3, search 0, memory_store 3, memory_recall 2
    for (i, n) in [(0usize, 1), (1, 3), (3, 3), (4, 2)] {
        for _ in 0..n {
            r.record_usage(&ids[i], true, 0.5f32.to_bits()).unwrap();
        }
    }
    let top: Vec<String> = r.get_most_used(3).into_iter().map(|s| s.metadata.name).collect();
    assert_eq!(top, vec!["file_write", "memory_store", "memory_recall"]);
    let all: Vec<u64> = r.get_most_used(10).into_iter().map(|s| s.usage_count).collect();
    assert_eq!(all, vec![3, 3, 2, 1, 0]);
    assert!(r.get_most_used(0).is_empty());
}

#[test]
fn test_record_usage_and_mastery_updates() {
    let mut r = SkillRegistry::new();
    let s = Skill::discovered("d".to_string(), "x".to_string(), SkillCategory::Learning, "e".to_string());
    let id = s.id.clone();
    r.register(s).unwrap();
    r.record_usage(&id, false, 0.25f32.to_bits()).unwrap();
    let got = r.get(&id).unwrap();
    assert_eq!((got.usage_count, got.failure_count), (1, 1));
    assert!(r.get_ready_skills().is_empty());
    r.set_mastery(0, 0.85f32.to_bits());
    assert_eq!(r.get_discovery_stats().mastered_skills, 1);
    assert_eq!(r.get_discovery_stats().discovered_skills, 1);
    assert_eq!(r.get_ready_skills().len(), 1);
    assert!(r.record_usage("other", true, 0).is_ok());
    assert_eq!(r.get(&id).unwrap().usage_count, 1);
}

#[test]
fn test_execution_metrics() {
    let mut m = ExecutionMetrics::new();
    assert!(!m.is_stable());
    m.record_success(50);
    m.record_failure(10);
    assert_eq!(m.total_executions, 2);
    assert_eq!(m.total_duration_ms, 60);
    assert_eq!(m.min_duration_ms, Some(10));
    assert_eq!(m.max_duration_ms, Some(50));
    assert_eq!(m.consecutive_failures, 1);
    assert_eq!(m.consecutive_successes, 0);
    m.record_success(20);
    assert!(!m.is_stable());
    m.record_success(30);
    assert!(m.is_stable());
    assert_eq!(m.consecutive_successes, 2);
    m.record_failure(40);
    assert!(!m.is_stable());
    assert_eq!(m.max_duration_ms, Some(50));
    assert_eq!(m.min_duration_ms, Some(10));
    assert!(m.last_failure.is_some());
    let d = ExecutionMetrics::default();
    assert_eq!(d.total_executions, 0);
    assert!(d.min_duration_ms.is_none());
}

#[test]
fn prepare_skill_execution_outcomes() {
    let input = |task: Option<&str>| ExecuteSkillInput {
        skill_id: "s1".to_string(),
        task: task.map(|t| t.to_string()),
        parameters: None,
        time_limit_secs: Some(30),
    };
    match prepare_skill_execution(None, input(None)) {
        Err(ExecuteSkillError::NotFound(id)) => assert_eq!(id, "s1"),
        _ => panic!("expected NotFound"),
    }
    let meta = SkillMetadata {
        name: "grep".to_string(),
        description: "search files".to_string(),
        category: SkillCategory::Search,
        version: "1.0.0".to_string(),
        author: None,
        tags: vec![],
        examples: vec![],
    };
    let fresh = Skill::new(meta);
    let mut off = fresh.clone();
    off.enabled = false;
    assert!(matches!(prepare_skill_execution(Some(off), input(None)), Err(ExecuteSkillError::Disabled)));
    let mut low = fresh.clone();
    low.mastery_bits = 0.1f32.to_bits();
    match prepare_skill_execution(Some(low), input(None)) {
        Err(ExecuteSkillError::NotReady { mastery_bits }) => assert_eq!(mastery_bits, 0.1f32.to_bits()),
        _ => panic!("expected NotReady"),
    }
    let mut needs = fresh.clone();
    needs.prerequisites = vec!["other".to_string()];
    match prepare_skill_execution(Some(needs), input(Some("t"))) {
        Err(ExecuteSkillError::PrerequisitesNotMet(n)) => assert_eq!(n, "grep"),
        _ => panic!("expected PrerequisitesNotMet"),
    }
    match prepare_skill_execution(Some(fresh.clone()), input(Some("do it"))) {
        Ok(c) => assert_eq!(c.task, "do it"),
        _ => panic!("expected a context"),
    }
    // A new skill has mastery 0.5, so it is ready.
    match prepare_skill_execution(Some(fresh), input(None)) {
        Ok(c) => {
            assert_eq!(c.task, "search files");
            assert_eq!(c.time_limit_secs, Some(30));
        }
        _ => panic!("expected a context"),
    }
    assert_eq!(simulated_execution_note(SkillCategory::Search), "Simulated search execution");
    assert_eq!(simulated_execution_note(SkillCategory::Web), "Skill execution simulated");
}

use robot_brain::architecture_validation::{
    reference_architecture_validation, validate_architecture, validate_architecture_v0_0_2,
    ArchitectureCheck, ArchitectureValidator, ValidationStatus,
};
use robot_brain::ids::new_id;
use robot_brain::json::JsonValue;
use robot_brain::storage_architecture::{
    initialize_storage_layers, reference_storage_architecture, StorageArchitecture,
    StorageAuditRecord, StorageLayer, StoragePolicy, StorageVersion, COLD_PROMOTION_BITS,
    FROZEN_PROMOTION_BITS, HOT_PROMOTION_BITS, WARM_PROMOTION_BITS,
};
use robot_brain::str_map::StrMap;
use robot_brain::strategic_learning::{
    reference_strategic_learning, StrategicCategory, StrategicEvaluation, StrategicFeedback,
    StrategicLearningEngine, StrategicObjective, StrategicUpdate, IMPACT_POINT_EIGHT_BITS,
    PROGRESS_THREE_QUARTERS_BITS,
};
use robot_brain::workers::{
    reference_background_worker_contracts, BackgroundTask, BackgroundWorkerSystem, WorkerStatus,
};

#[test]
fn test_new_id_shape() {
    let a = new_id();
    let b = new_id();
    assert_eq!(a.len(), 36);
    assert_ne!(a, b);
    assert_eq!(a.matches('-').count(), 4);
}

#[test]
fn test_str_map_insert_replaces() {
    let mut m: StrMap<u32> = StrMap::new();
    m.insert("a".to_string(), 1);
    m.insert("b".to_string(), 2);
    m.insert("a".to_string(), 3);
    assert_eq!(m.len(), 2);
    assert_eq!(m.get("a"), Some(&3));
    assert_eq!(m.get("b"), Some(&2));
    assert_eq!(m.get("c"), None);
    assert_eq!(m.key_at(0), "a");
    assert_eq!(*m.value_at(1), 2);
    m.clear();
    assert_eq!(m.len(), 0);
}

#[test]
fn test_worker_queue_is_fifo() {
    let mut sys = BackgroundWorkerSystem::new();
    assert_eq!(sys.pending_tasks(), 0);
    assert!(sys.process_next().is_none());
    for id in ["t1", "t2", "t3"] {
        sys.enqueue_task(BackgroundTask::new(
            id.to_string(),
            "memory".to_string(),
            "normal".to_string(),
            JsonValue::Null,
        ));
    }
    assert_eq!(sys.pending_tasks(), 3);
    assert_eq!(sys.process_next().unwrap().id, "t1");
    assert_eq!(sys.process_next().unwrap().id, "t2");
    assert_eq!(sys.pending_tasks(), 1);
    let t = sys.process_next().unwrap();
    assert_eq!(t.status, "pending");
    assert!(sys.process_next().is_none());
}

#[test]
fn test_start_and_stop_workers() {
    let mut sys = BackgroundWorkerSystem::new();
    assert_eq!(sys.check_health().len(), 0);
    sys.start_workers();
    let health = sys.check_health();
    assert_eq!(health.len(), 5);
    for name in ["memory", "learning", "experience", "knowledge_graph", "maintenance"] {
        assert_eq!(health.get(name), Some(&WorkerStatus::Running));
    }
    sys.learning_worker.enabled = false;
    sys.stop_workers();
    assert_eq!(sys.check_health().len(), 0);
    sys.start_workers();
    assert_eq!(sys.check_health().len(), 4);
    assert_eq!(sys.check_health().get("learning"), None);
}

#[test]
fn test_reference_worker_contracts() {
    assert_eq!(reference_background_worker_contracts(), (0, 1, 5, 3, 2, "test-1".to_string()));
}

#[test]
fn test_storage_layers() {
    assert_eq!(StorageLayer::Hot.label(), "Hot");
    assert_eq!(StorageLayer::Frozen.label(), "Frozen");
    assert!(StorageLayer::Hot.supports_write());
    assert!(!StorageLayer::Frozen.supports_write());
    assert!(StorageLayer::Cold.supports_read());
    assert_eq!(HOT_PROMOTION_BITS, 0.9f32.to_bits());
    assert_eq!(WARM_PROMOTION_BITS, 0.7f32.to_bits());
    assert_eq!(COLD_PROMOTION_BITS, 0.5f32.to_bits());
    assert_eq!(FROZEN_PROMOTION_BITS, 0.0f32.to_bits());
    let p = StoragePolicy::new(StorageLayer::Warm, 30, WARM_PROMOTION_BITS);
    assert!(p.should_demote(2));
    assert!(!p.should_demote(3));
}

#[test]
fn test_storage_architecture_bookkeeping() {
    let arch = initialize_storage_layers();
    assert_eq!(arch.counts(), (4, 0, 0));
    assert_eq!(arch.get_policy("hot").unwrap().retention_days, 7);
    assert_eq!(arch.get_policy("cold").unwrap().retention_days, 365);
    assert!(arch.should_cleanup("warm"));
    assert!(!arch.should_cleanup("lukewarm"));
    let mut a = StorageArchitecture::new();
    let mut r1 = StorageAuditRecord::new("d1", StorageLayer::Hot, "store", "agent");
    r1.add_provenance("ingest");
    assert_eq!(r1.provenance, vec!["ingest".to_string()]);
    assert_eq!(r1.schema_version, "v0.0.2.1");
    a.audit(r1);
    a.audit(StorageAuditRecord::new("d2", StorageLayer::Cold, "archive", "agent"));
    a.audit(StorageAuditRecord::new("d1", StorageLayer::Warm, "demote", "agent"));
    let d1: Vec<String> = a.get_audit_for_data("d1").iter().map(|r| r.action.clone()).collect();
    assert_eq!(d1, vec!["store".to_string(), "demote".to_string()]);
    a.track_version("d1", StorageVersion::Data("2".to_string()));
    assert_eq!(StorageVersion::Migration("m1".to_string()).label(), "m1");
    assert_eq!(a.counts(), (0, 3, 1));
    assert_eq!(reference_storage_architecture(), (4, 1, 1));
}

#[test]
fn test_strategic_objectives_and_updates() {
    assert_eq!(StrategicCategory::MemoryRetrieval.label(), "MemoryRetrieval");
    let mut o = StrategicObjective::new("o1", "Faster recall", StrategicCategory::MemoryRetrieval, "d", 3);
    assert_eq!(o.status, "active");
    o.add_capability("search");
    o.add_capability("search");
    o.add_capability("rank");
    assert_eq!(o.related_capabilities, vec!["search".to_string(), "rank".to_string()]);
    let mut engine = StrategicLearningEngine::new();
    engine.add_objective(o);
    let mut done = StrategicObjective::new("o2", "Old", StrategicCategory::ToolCapability, "d", 1);
    done.complete();
    assert_eq!(done.status, "completed");
    engine.add_objective(done);
    let active: Vec<String> = engine.active_objectives().iter().map(|o| o.id.clone()).collect();
    assert_eq!(active, vec!["o1".to_string()]);
    engine.add_update(StrategicUpdate::new("u1", "o1", "a", "t", "d"));
    engine.add_update(StrategicUpdate::new("u2", "o1", "a", "t", "d"));
    assert!(engine.apply_update("u1"));
    assert!(!engine.apply_update("u9"));
    let pending: Vec<String> = engine.pending_updates().iter().map(|u| u.id.clone()).collect();
    assert_eq!(pending, vec!["u2".to_string()]);
    let e = engine.evaluate("o1", PROGRESS_THREE_QUARTERS_BITS).unwrap();
    assert_eq!(f32::from_bits(e.progress_score_bits), 0.75);
    assert_eq!(e.evidence_count, 0);
    engine.add_feedback(StrategicFeedback::new("x", "o1", "positive", "ok", IMPACT_POINT_EIGHT_BITS));
    assert_eq!(engine.feedback_count(), 1);
    assert_eq!(engine.get_objective("o1").unwrap().name, "Faster recall");
    assert!(engine.get_objective("o3").is_none());
    assert_eq!(reference_strategic_learning(), (true, 1));
}

#[test]
fn test_strategic_evaluation_evidence() {
    let mut e = StrategicEvaluation::new("o1", 0);
    e.add_success("fewer misses");
    e.add_failure("slow");
    e.add_recommendation("cache");
    assert_eq!(e.evidence_count, 2);
    assert_eq!(e.recommendations, vec!["cache".to_string()]);
    let mut u = StrategicUpdate::new("u", "o", "a", "t", "d");
    u.fail();
    assert_eq!(u.status, "failed");
}

#[test]
fn test_architecture_validation() {
    let v = validate_architecture();
    assert_eq!(v.check_count(), 29);
    assert!(v.is_aligned());
    assert!(v.get_missing_components().is_empty());
    assert_eq!(v.get_checks()[0].status, ValidationStatus::Aligned);
    assert_eq!(validate_architecture_v0_0_2().check_count(), 29);
    assert_eq!(reference_architecture_validation(), (true, 0, 0, 29));
    let mut w = ArchitectureValidator::new();
    w.add_check(ArchitectureCheck::new("a", ValidationStatus::MinorDeviation, "x"));
    assert!(w.is_aligned());
    w.add_check(ArchitectureCheck::new("b", ValidationStatus::MajorDeviation, "y"));
    w.add_check(ArchitectureCheck::new("c", ValidationStatus::Aligned, "z"));
    assert!(!w.is_aligned());
    assert_eq!(w.get_major_deviations(), vec!["b".to_string()]);
    let mut m = ArchitectureValidator::new();
    m.add_check(ArchitectureCheck::new("gone", ValidationStatus::MissingComponent, ""));
    assert_eq!(m.get_missing_components(), vec!["gone".to_string()]);
    assert!(!m.is_aligned());
    assert_eq!(ValidationStatus::MissingComponent.label(), "MissingComponent");
}

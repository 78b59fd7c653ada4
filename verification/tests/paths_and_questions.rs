use robot_brain::strategic_learning::{StrategicCategory, StrategicObjective};
use robot_brain::tools::ingestor::audio_transcriber::is_audio_file;
use robot_brain::tools::ingestor::ingest::batch::{
    batch_questions, plan_batch, BatchProgress, FileOutcome, FoundFile,
};
use robot_brain::tools::ingestor::ingest::helpers::is_archive_file;
use robot_brain::tools::ingestor::ingest::{within_deletion_window, IngestResult};
use robot_brain::tools::ingestor::paths::{path_extension, path_file_name};
use robot_brain::tools::ingestor::simple::detect_file_type;
use robot_brain::tools::skills::parse_category;
use robot_brain::tools::{get_tools, register_server_tools, server_tool_groups, ToolRegistry};
use robot_brain::skills::registry::SkillCategory;

#[test]
fn plain_path_extensions() {
    assert_eq!(path_extension("docs/notes.TXT").as_deref(), Some("TXT"));
    assert_eq!(path_extension("docs/archive.tar.gz").as_deref(), Some("gz"));
    assert_eq!(path_extension("docs/.bashrc"), None);
    assert_eq!(path_extension("docs/README"), None);
    assert_eq!(path_extension("a.dir/file"), None);
    assert_eq!(path_file_name("a/b/c.md").as_deref(), Some("c.md"));
    assert_eq!(detect_file_type("dir/notes.TXT"), "text");
    assert_eq!(detect_file_type("dir/.hidden"), "unknown");
    assert_eq!(detect_file_type("data/x.json"), "json");
    assert!(is_audio_file("music/song.MP3"));
    assert!(!is_audio_file("music/song.mp3.txt"));
    assert!(is_archive_file("in/bundle.tar.gz"));
    assert!(!is_archive_file("in/bundle"));
}

#[test]
fn deletion_window_is_five_minutes() {
    assert!(within_deletion_window(0));
    assert!(within_deletion_window(299));
    assert!(!within_deletion_window(300));
}

#[test]
fn category_names_round_trip() {
    let all = [
        SkillCategory::FileOperation,
        SkillCategory::CodeAnalysis,
        SkillCategory::Search,
        SkillCategory::Memory,
        SkillCategory::Learning,
        SkillCategory::Planning,
        SkillCategory::Communication,
        SkillCategory::Web,
        SkillCategory::Database,
        SkillCategory::System,
        SkillCategory::Custom,
    ];
    for c in all {
        assert_eq!(parse_category(c.as_str()).unwrap(), c);
        assert_eq!(parse_category(&c.as_str().to_uppercase()).unwrap(), c);
    }
    assert_eq!(parse_category("Nope").unwrap_err(), "Unknown skill category: Nope");
}

#[test]
fn server_tools_in_group_order_and_replaced() {
    let groups = server_tool_groups();
    assert_eq!(groups.len(), 12);
    let mut reg = ToolRegistry::new();
    register_server_tools(&mut reg);
    let once = get_tools(Some(&reg));
    register_server_tools(&mut reg);
    let twice = get_tools(Some(&reg));
    assert_eq!(once.len(), twice.len());
    let total: usize = groups.iter().map(|g| g.len()).sum();
    assert_eq!(once.len(), total);
    assert_eq!(once[0].name, groups[0][0].name);
    assert_eq!(once[total - 1].name, groups[11][groups[11].len() - 1].name);
}

fn found(name: &str, skip: Option<&str>, recent: bool) -> FoundFile {
    FoundFile {
        path: format!("/in/{}", name),
        filename: name.to_string(),
        size: 1,
        file_type: "text".to_string(),
        skip_reason: skip.map(|s| s.to_string()),
        recently_ingested: recent,
    }
}

#[test]
fn batch_questions_follow_outcomes() {
    let plan = plan_batch(vec![found("a.txt", None, false), found("old.txt", None, true)], false, 5);
    let mut p = BatchProgress::new();
    let q = batch_questions(&plan, &p);
    assert!(!q.success);
    assert_eq!(q.ask_delete_file, None);
    assert_eq!(q.ask_skip, None);
    assert_eq!(
        q.ask_reingest,
        Some("This file was already ingested. Do you want to ingest it again?")
    );
    let a = found("a.txt", None, false);
    p.record(&a, FileOutcome::Failed("bad".to_string()), 1000, 60);
    let q = batch_questions(&plan, &p);
    assert_eq!(q.ask_skip, Some("Do you want to retry ingesting this file?"));
    let ok = IngestResult {
        filename: "a.txt".to_string(),
        file_path: "/in/a.txt".to_string(),
        success: true,
        chunks_created: 1,
        chunk_size_used: 1000,
        memory_ids: vec![],
        error: None,
        remaining_count: 0,
    };
    p.record(&a, FileOutcome::Finished(ok), 1000, 60);
    let q = batch_questions(&plan, &p);
    assert!(q.success);
    assert_eq!(q.ask_delete_file, Some("Can I delete the original file to save space?"));
    assert_eq!(q.ask_reingest, None);
    let skipping = plan_batch(vec![found("big.bin", Some("too big"), false)], false, 5);
    let q = batch_questions(&skipping, &p);
    assert_eq!(q.ask_skip, Some("Skip this file and move to the next one?"));
}

#[test]
fn add_capability_keeps_other_fields() {
    let mut o = StrategicObjective::new("o1", "Reliability", StrategicCategory::SystemReliability, "keep up", 3);
    let created = o.created_at;
    let updated = o.updated_at;
    o.add_capability("retry");
    o.add_capability("retry");
    o.add_capability("cache");
    assert_eq!(o.related_capabilities, vec!["retry".to_string(), "cache".to_string()]);
    assert_eq!(o.name, "Reliability");
    assert_eq!(o.description, "keep up");
    assert_eq!(o.status, "active");
    assert_eq!(o.created_at, created);
    assert_eq!(o.updated_at, updated);
}

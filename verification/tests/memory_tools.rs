use robot_brain::tools::hypothesis::{list_hypotheses_query, list_observations_query, ListHypothesesInput, ListObservationsInput, SqlParam};
use robot_brain::tools::exploration::{parse_hypothesis_verdict, HypothesisVerdict};
use robot_brain::tools::memory::{
    classify_stored_content, cleanup_confirmed, image_preview, text_preview, StoredContentKind,
};

#[test]
fn cleanup_confirmation_words() {
    assert!(cleanup_confirmed("yes"));
    assert!(cleanup_confirmed("Y"));
    assert!(cleanup_confirmed("TRUE"));
    assert!(!cleanup_confirmed("no"));
    assert!(!cleanup_confirmed(""));
    assert!(!cleanup_confirmed("yes please"));
}

#[test]
fn stored_content_kinds() {
    assert_eq!(
        classify_stored_content("IMAGE FILE\nName: cat.png"),
        StoredContentKind::ImageDescription
    );
    assert_eq!(classify_stored_content("notes about cats"), StoredContentKind::Other);
    assert_eq!(classify_stored_content("image file in lower case"), StoredContentKind::Other);
    assert_eq!(
        classify_stored_content("abc\u{0}defghijkl"),
        StoredContentKind::Garbage
    );
    assert_eq!(
        classify_stored_content("GIF89a plus some text"),
        StoredContentKind::Garbage
    );
}

#[test]
fn text_preview_short_and_long() {
    assert_eq!(text_preview("short", 100), "short");
    let long = "a".repeat(120);
    let p = text_preview(&long, 100);
    assert_eq!(p, format!("{}...", "a".repeat(100)));
    assert_eq!(text_preview("abcdef", 3), "abc...");
    assert_eq!(text_preview("abc", 3), "abc");
}

#[test]
fn image_preview_keeps_five_lines() {
    let content = "IMAGE FILE\nl2\nl3\nl4\nl5\nl6\nl7";
    assert_eq!(image_preview(content), "IMAGE FILE\nl2\nl3\nl4\nl5");
    assert_eq!(image_preview("one\ntwo"), "one\ntwo");
    assert_eq!(image_preview(""), "");
}

#[test]
fn hypothesis_verdict_words() {
    assert_eq!(parse_hypothesis_verdict("Supported"), HypothesisVerdict::Supported);
    assert_eq!(parse_hypothesis_verdict("PARTIALLY_SUPPORTED"), HypothesisVerdict::PartiallySupported);
    assert_eq!(parse_hypothesis_verdict("rejected"), HypothesisVerdict::Rejected);
    assert_eq!(parse_hypothesis_verdict("maybe"), HypothesisVerdict::Unknown);
}

#[test]
fn hypothesis_list_queries() {
    let q = list_hypotheses_query(&ListHypothesesInput {
        domain: Some("rust".to_string()),
        status: None,
        limit: None,
    });
    assert!(q.0.ends_with(" WHERE domain = ?1 ORDER BY updated_at DESC LIMIT ?2"));
    assert_eq!(q.1, vec![SqlParam::Text("rust".to_string()), SqlParam::Integer(10)]);
    let all = list_hypotheses_query(&ListHypothesesInput { domain: None, status: None, limit: Some(3) });
    assert!(all.0.ends_with(" ORDER BY updated_at DESC LIMIT ?1"));
    assert_eq!(all.1, vec![SqlParam::Integer(3)]);
    let both = list_hypotheses_query(&ListHypothesesInput {
        domain: Some("d".to_string()),
        status: Some("testing".to_string()),
        limit: Some(2),
    });
    assert_eq!(
        both.1,
        vec![SqlParam::Text("d".to_string()), SqlParam::Text("testing".to_string()), SqlParam::Integer(2)]
    );
    let obs = list_observations_query(&ListObservationsInput { observation_type: None, limit: None });
    assert!(obs.0.ends_with("ORDER BY created_at DESC LIMIT ?1"));
    assert_eq!(obs.1, vec![SqlParam::Integer(10)]);
    let typed = list_observations_query(&ListObservationsInput {
        observation_type: Some("error".to_string()),
        limit: Some(4),
    });
    assert!(typed.0.contains("WHERE observation_type = ?1"));
    assert_eq!(typed.1, vec![SqlParam::Text("error".to_string()), SqlParam::Integer(4)]);
}

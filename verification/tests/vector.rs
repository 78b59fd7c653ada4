use robot_brain::str_map::StrMap;
use robot_brain::vector::{Embedding, VectorIndex};

fn emb(id: &str, values: &[f32], cluster: Option<&str>) -> Embedding {
    let mut metadata = StrMap::new();
    if let Some(c) = cluster {
        metadata.insert("cluster".to_string(), c.to_string());
    }
    Embedding {
        id: id.to_string(),
        vector_bits: values.iter().map(|v| v.to_bits()).collect(),
        content: format!("content of {}", id),
        model: "test".to_string(),
        dimension: values.len(),
        metadata,
    }
}

#[test]
fn test_vector_index_add_get_delete() {
    let mut index = VectorIndex::new(3, "hash");
    assert_eq!(index.dimension(), 3);
    assert_eq!(index.model(), "hash");
    assert_eq!(index.stats().total_embeddings, 0);
    assert_eq!(index.stats().total_dimension, 3);
    assert!(index.stats().last_updated.is_some());
    assert_eq!(
        index.add(emb("a", &[1.0, 0.0], None)),
        Err("Vector dimension mismatch: expected 3, got 2".to_string())
    );
    assert!(index.get("a").is_none());
    assert!(index.add(emb("a", &[1.0, 0.0, 0.0], Some("x"))).is_ok());
    assert!(index.add(emb("b", &[0.0, 1.0, 0.0], Some("y"))).is_ok());
    assert!(index.add(emb("a", &[0.0, 0.0, 1.0], Some("y"))).is_ok());
    assert_eq!(index.stats().total_embeddings, 2);
    let a = index.get("a").unwrap();
    assert_eq!(f32::from_bits(a.vector_bits[2]), 1.0);
    let ids: Vec<&str> = index.get_all().iter().map(|e| e.id.as_str()).collect();
    assert_eq!(ids, vec!["a", "b"]);
    let ys: Vec<&str> = index.get_by_metadata("cluster", "y").iter().map(|e| e.id.as_str()).collect();
    assert_eq!(ys, vec!["a", "b"]);
    assert!(index.get_by_metadata("cluster", "x").is_empty());
    assert!(index.get_by_metadata("other", "y").is_empty());
    assert!(index.delete("a"));
    assert!(!index.delete("a"));
    assert!(index.get("a").is_none());
    assert_eq!(index.stats().total_embeddings, 1);
    index.clear();
    assert!(index.get_all().is_empty());
    assert_eq!(index.stats().total_embeddings, 0);
}

#[test]
fn test_vector_index_batch() {
    let mut index = VectorIndex::new(2, "hash");
    let added = index.add_batch(vec![
        emb("a", &[1.0, 0.0], None),
        emb("bad", &[1.0], None),
        emb("b", &[0.0, 1.0], None),
        emb("a", &[0.5, 0.5], None),
    ]);
    assert_eq!(added, Ok(3));
    assert_eq!(index.get_all().len(), 2);
    assert!(index.get("bad").is_none());
    assert_eq!(f32::from_bits(index.get("a").unwrap().vector_bits[0]), 0.5);
}

#[test]
fn test_str_map_remove() {
    let mut m: StrMap<u32> = StrMap::new();
    m.insert("a".to_string(), 1);
    m.insert("b".to_string(), 2);
    m.insert("c".to_string(), 3);
    assert_eq!(m.remove("b"), Some(2));
    assert_eq!(m.remove("b"), None);
    assert_eq!(m.len(), 2);
    assert_eq!(m.key_at(1), "c");
    assert_eq!(m.get("a"), Some(&1));
}

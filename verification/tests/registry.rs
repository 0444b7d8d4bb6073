use zn::ai::registry::{newest_first, ModelEntry};

fn entry(id: &str, created_at: i64) -> ModelEntry {
    ModelEntry {
        id: id.to_string(),
        model_id: "minilm".to_string(),
        version: "1".to_string(),
        dim: 384,
        path: "/models/minilm".to_string(),
        metrics: "{}".to_string(),
        status: "staging".to_string(),
        created_at,
    }
}

fn ids(entries: &[ModelEntry]) -> Vec<String> {
    entries.iter().map(|e| e.id.clone()).collect()
}

#[test]
fn registry_lists_newest_first_keeping_ties_in_order() {
    let out = newest_first(vec![entry("a", 1), entry("b", 3), entry("c", 2), entry("d", 3)]);
    assert_eq!(ids(&out), vec!["b", "d", "c", "a"]);
}

#[test]
fn registry_order_of_empty_list_is_empty() {
    assert!(newest_first(Vec::new()).is_empty());
}

#[test]
fn registry_order_keeps_every_entry() {
    let out = newest_first(vec![entry("x", -5), entry("y", 10), entry("z", 0)]);
    assert_eq!(out.len(), 3);
    assert_eq!(ids(&out), vec!["y", "z", "x"]);
    assert!(out.windows(2).all(|w| w[0].created_at >= w[1].created_at));
}

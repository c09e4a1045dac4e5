use hit_classifier::{
    match_index_kind, registry, ClassifyError, DataSourceDocument, DocKind, NodeDocument,
    SearchItem,
};
use serde_json::Value;

fn object(entries: Vec<(&str, Value)>) -> Value {
    let mut map = serde_json::Map::new();
    for (k, v) in entries {
        map.insert(k.to_string(), v);
    }
    Value::Object(map)
}

fn text(s: &str) -> Value {
    Value::String(s.to_string())
}

fn hit_with(index: Value, source: Value) -> Value {
    object(vec![("_index", index), ("_source", source)])
}

fn id_payload(id: &str) -> Value {
    object(vec![("id", text(id))])
}

#[test]
fn node_hit_is_classified_as_node() {
    let hit = hit_with(text("data_source_node_v3"), id_payload("n1"));
    assert_eq!(
        SearchItem::from_hit(&hit),
        Ok(SearchItem::Node(NodeDocument {
            id: Some("n1".to_string())
        }))
    );
}

#[test]
fn data_source_hit_is_classified_as_data_source() {
    let hit = hit_with(text("data_source_v3"), id_payload("d1"));
    assert_eq!(
        SearchItem::from_hit(&hit),
        Ok(SearchItem::DataSource(DataSourceDocument {
            id: Some("d1".to_string())
        }))
    );
}

#[test]
fn hit_without_payload_is_missing_payload() {
    let hit = object(vec![("_index", text("data_source_node_v3"))]);
    assert_eq!(SearchItem::from_hit(&hit), Err(ClassifyError::MissingPayload));
}

#[test]
fn unregistered_index_is_unknown_index_kind() {
    let hit = hit_with(text("unrelated_index_x"), id_payload("u1"));
    assert_eq!(
        SearchItem::from_hit(&hit),
        Err(ClassifyError::UnknownIndexKind)
    );
}

#[test]
fn hit_without_index_is_missing_index_name() {
    let hit = object(vec![("_source", id_payload("n1"))]);
    assert_eq!(
        SearchItem::from_hit(&hit),
        Err(ClassifyError::MissingIndexName)
    );
}

#[test]
fn hit_with_non_string_index_is_missing_index_name() {
    let hit = hit_with(Value::from(3u64), id_payload("n1"));
    assert_eq!(
        SearchItem::from_hit(&hit),
        Err(ClassifyError::MissingIndexName)
    );
}

#[test]
fn missing_payload_is_reported_before_missing_index() {
    let hit = object(vec![]);
    assert_eq!(SearchItem::from_hit(&hit), Err(ClassifyError::MissingPayload));
}

#[test]
fn non_object_hit_is_missing_payload() {
    assert_eq!(
        SearchItem::from_hit(&Value::Null),
        Err(ClassifyError::MissingPayload)
    );
    assert_eq!(
        SearchItem::from_hit(&text("data_source_node_v3")),
        Err(ClassifyError::MissingPayload)
    );
}

#[test]
fn classification_is_idempotent() {
    let hits = vec![
        hit_with(text("data_source_node_v3"), id_payload("n1")),
        hit_with(text("data_source_v3"), id_payload("d1")),
        hit_with(text("unrelated_index_x"), id_payload("u1")),
        object(vec![("_index", text("data_source_node_v3"))]),
        object(vec![("_source", id_payload("n1"))]),
    ];
    for hit in hits {
        assert_eq!(SearchItem::from_hit(&hit), SearchItem::from_hit(&hit));
    }
}

#[test]
fn node_prefix_wins_over_data_source_prefix() {
    assert_eq!(match_index_kind("data_source_node_v3"), Some(DocKind::Node));
    assert_eq!(match_index_kind("data_source_node"), Some(DocKind::Node));
    assert_eq!(
        match_index_kind("data_source_v3"),
        Some(DocKind::DataSource)
    );
    assert_eq!(match_index_kind("data_source"), Some(DocKind::DataSource));
    assert_eq!(match_index_kind("data_sourc"), None);
    assert_eq!(match_index_kind("unrelated_index_x"), None);
    assert_eq!(match_index_kind(""), None);
}

#[test]
fn registry_is_ordered_node_first() {
    let reg = registry();
    assert_eq!(
        reg,
        vec![
            ("data_source_node", DocKind::Node),
            ("data_source", DocKind::DataSource),
        ]
    );
}

#[test]
fn payload_without_id_decodes_to_no_id() {
    let hit = hit_with(text("data_source_node_v3"), object(vec![]));
    assert_eq!(
        SearchItem::from_hit(&hit),
        Ok(SearchItem::Node(NodeDocument { id: None }))
    );
}

#[test]
fn payload_with_non_string_id_decodes_to_no_id() {
    let payload = object(vec![("id", Value::from(7u64))]);
    let hit = hit_with(text("data_source_v3"), payload);
    assert_eq!(
        SearchItem::from_hit(&hit),
        Ok(SearchItem::DataSource(DataSourceDocument { id: None }))
    );
}

#[test]
fn other_fields_of_a_hit_are_ignored() {
    let hit = object(vec![
        ("_index", text("data_source_node_v3")),
        ("_source", id_payload("n2")),
        ("_score", Value::from(12u64)),
        ("_shard", text("s0")),
    ]);
    assert_eq!(
        SearchItem::from_hit(&hit),
        Ok(SearchItem::Node(NodeDocument {
            id: Some("n2".to_string())
        }))
    );
}

use std::collections::HashMap;

use iotedge::models::object_meta::Timestamp;
use iotedge::models::{Initializer, ObjectMeta, OwnerReference};

#[test]
fn initializer_new_has_no_name() {
    let i = Initializer::new();
    assert_eq!(i.name(), None);
}

#[test]
fn initializer_with_name_reads_back() {
    let i = Initializer::new().with_name("init".to_string());
    assert_eq!(i.name(), Some("init"));
    let i = i.with_name("again".to_string());
    assert_eq!(i.name(), Some("again"));
}

#[test]
fn owner_reference_new_is_empty() {
    let o = OwnerReference::new();
    assert_eq!(o.api_version(), None);
    assert_eq!(o.block_owner_deletion(), None);
    assert_eq!(o.controller(), None);
    assert_eq!(o.kind(), None);
    assert_eq!(o.name(), None);
    assert_eq!(o.uid(), None);
}

#[test]
fn owner_reference_builders_read_back() {
    let o = OwnerReference::new()
        .with_api_version("v1".to_string())
        .with_block_owner_deletion(true)
        .with_controller(false)
        .with_kind("Pod".to_string())
        .with_name("edgeagent".to_string())
        .with_uid("1234".to_string());
    assert_eq!(o.api_version(), Some("v1"));
    assert_eq!(o.block_owner_deletion(), Some(true));
    assert_eq!(o.controller(), Some(false));
    assert_eq!(o.kind(), Some("Pod"));
    assert_eq!(o.name(), Some("edgeagent"));
    assert_eq!(o.uid(), Some("1234"));
}

#[test]
fn owner_reference_setter_keeps_other_fields() {
    let o = OwnerReference::new().with_kind("Pod".to_string());
    let o = o.with_name("n".to_string());
    assert_eq!(o.kind(), Some("Pod"));
    assert_eq!(o.uid(), None);
    let o = o.with_name("m".to_string());
    assert_eq!(o.name(), Some("m"));
}

#[test]
fn object_meta_new_is_empty() {
    let m = ObjectMeta::new();
    assert_eq!(m.cluster_name(), None);
    assert_eq!(m.generate_name(), None);
    assert_eq!(m.name(), None);
    assert_eq!(m.namespace(), None);
    assert_eq!(m.resource_version(), None);
    assert_eq!(m.self_link(), None);
    assert_eq!(m.uid(), None);
    assert!(m.annotations().is_none());
    assert!(m.creation_timestamp().is_none());
    assert!(m.deletion_grace_period_seconds().is_none());
    assert!(m.deletion_timestamp().is_none());
    assert!(m.finalizers().is_none());
    assert!(m.generation().is_none());
    assert!(m.initializers().is_none());
    assert!(m.labels().is_none());
    assert!(m.owner_references().is_none());
}

#[test]
fn object_meta_string_fields_read_back() {
    let m = ObjectMeta::new()
        .with_cluster_name("cluster".to_string())
        .with_generate_name("gen-".to_string())
        .with_name("edgehub".to_string())
        .with_namespace("msiot".to_string())
        .with_resource_version("42".to_string())
        .with_self_link("/api/v1/pods/edgehub".to_string())
        .with_uid("abcd".to_string());
    assert_eq!(m.cluster_name(), Some("cluster"));
    assert_eq!(m.generate_name(), Some("gen-"));
    assert_eq!(m.name(), Some("edgehub"));
    assert_eq!(m.namespace(), Some("msiot"));
    assert_eq!(m.resource_version(), Some("42"));
    assert_eq!(m.self_link(), Some("/api/v1/pods/edgehub"));
    assert_eq!(m.uid(), Some("abcd"));
}

#[test]
fn object_meta_structured_fields_read_back() {
    let mut labels = HashMap::new();
    labels.insert("app".to_string(), "edge".to_string());
    let mut annotations = HashMap::new();
    annotations.insert("note".to_string(), "x".to_string());
    let created = Timestamp::new(1_546_300_800, 0).unwrap();
    let deleted = Timestamp::new(1_546_300_900, 500).unwrap();
    let m = ObjectMeta::new()
        .with_labels(labels.clone())
        .with_annotations(annotations.clone())
        .with_creation_timestamp(created)
        .with_deletion_timestamp(deleted)
        .with_deletion_grace_period_seconds(30)
        .with_generation(7)
        .with_finalizers(vec!["f1".to_string(), "f2".to_string()])
        .with_initializers(vec![Initializer::new().with_name("i".to_string())])
        .with_owner_references(vec![OwnerReference::new().with_kind("Deployment".to_string())]);
    assert_eq!(m.labels(), Some(&labels));
    assert_eq!(m.annotations(), Some(&annotations));
    assert_eq!(m.creation_timestamp(), Some(&created));
    assert_eq!(m.deletion_timestamp(), Some(&deleted));
    assert_eq!(m.deletion_grace_period_seconds(), Some(&30));
    assert_eq!(m.generation(), Some(&7));
    assert_eq!(m.finalizers(), Some(&vec!["f1".to_string(), "f2".to_string()]));
    assert_eq!(m.initializers().unwrap()[0].name(), Some("i"));
    assert_eq!(m.owner_references().unwrap()[0].kind(), Some("Deployment"));
}

#[test]
fn object_meta_last_set_wins() {
    let m = ObjectMeta::new()
        .with_name("a".to_string())
        .with_namespace("ns".to_string())
        .with_name("b".to_string());
    assert_eq!(m.name(), Some("b"));
    assert_eq!(m.namespace(), Some("ns"));
}

#[test]
fn timestamp_range() {
    let t = Timestamp::new(-8_334_632_937_600, 1_999_999_999).unwrap();
    assert_eq!(t.secs(), -8_334_632_937_600);
    assert_eq!(t.nanos(), 1_999_999_999);
    assert!(Timestamp::new(8_210_298_412_799, 0).is_some());
    assert!(Timestamp::new(8_210_298_412_800, 0).is_none());
    assert!(Timestamp::new(-8_334_632_937_601, 0).is_none());
    assert!(Timestamp::new(0, 2_000_000_000).is_none());
}

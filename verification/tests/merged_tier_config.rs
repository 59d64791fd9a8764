use pike::cluster::Tier;
use pike::tier_config::{get_merged_cluster_tier_config, TierVal};

#[test]
fn merged_config_round_trips_overrides() {
    let overrides = vec![(
        "t2".to_string(),
        TierVal::Mapping(vec![
            ("replication_factor".to_string(), "99".to_string()),
            ("custom".to_string(), "\"keep\"".to_string()),
        ]),
    )];
    let tiers = vec![("t2".to_string(), Tier { replicasets: 1, replication_factor: 7 })];
    let merged = get_merged_cluster_tier_config(overrides, &tiers);
    let v: serde_json::Value = serde_json::from_str(&merged).unwrap();
    assert_eq!(v["t2"]["replication_factor"], 7);
    assert_eq!(v["t2"]["custom"], "keep");
}

#[test]
fn merged_config_turns_null_tiers_into_objects() {
    let overrides = vec![
        ("seen".to_string(), TierVal::Null),
        ("untouched".to_string(), TierVal::Null),
    ];
    let tiers = vec![("seen".to_string(), Tier { replicasets: 2, replication_factor: 3 })];
    let merged = get_merged_cluster_tier_config(overrides, &tiers);
    let v: serde_json::Value = serde_json::from_str(&merged).unwrap();
    assert_eq!(v["seen"]["replication_factor"], 3);
    assert!(v["untouched"].is_object());
    assert_eq!(v["untouched"].as_object().unwrap().len(), 0);
}

#[test]
fn merged_config_appends_missing_tiers() {
    let overrides = vec![];
    let tiers = vec![
        ("a".to_string(), Tier { replicasets: 1, replication_factor: 1 }),
        ("b".to_string(), Tier { replicasets: 1, replication_factor: 2 }),
    ];
    let merged = get_merged_cluster_tier_config(overrides, &tiers);
    let v: serde_json::Value = serde_json::from_str(&merged).unwrap();
    assert_eq!(v["a"]["replication_factor"], 1);
    assert_eq!(v["b"]["replication_factor"], 2);
}

#[test]
fn merged_config_leaves_non_mapping_entries_alone() {
    let overrides = vec![("odd".to_string(), TierVal::Other("5".to_string()))];
    let tiers = vec![("odd".to_string(), Tier { replicasets: 1, replication_factor: 9 })];
    let merged = get_merged_cluster_tier_config(overrides, &tiers);
    let v: serde_json::Value = serde_json::from_str(&merged).unwrap();
    assert_eq!(v["odd"], 5);
}

#[test]
fn merged_config_escapes_tier_names() {
    let overrides = vec![];
    let tiers = vec![("a\"b\\c".to_string(), Tier { replicasets: 1, replication_factor: 4 })];
    let merged = get_merged_cluster_tier_config(overrides, &tiers);
    let v: serde_json::Value = serde_json::from_str(&merged).unwrap();
    assert_eq!(v["a\"b\\c"]["replication_factor"], 4);
}

#[test]
fn merged_config_escapes_control_characters() {
    let overrides = vec![(
        "line\nbreak\ttab\u{1}one".to_string(),
        TierVal::Mapping(vec![("custom".to_string(), "true".to_string())]),
    )];
    let tiers = vec![];
    let merged = get_merged_cluster_tier_config(overrides, &tiers);
    let v: serde_json::Value = serde_json::from_str(&merged).unwrap();
    assert_eq!(v["line\nbreak\ttab\u{1}one"]["custom"], true);
}

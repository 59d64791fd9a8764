use pike::cluster::{RunParamsBuilder, Tier, Topology};
use pike::instance::PicodataInstance;
use pike::run::{
    assign_instances, cluster_run_guard, instance_id_from_dir_name, rollback_pids,
    tier_for_instance, BuildType, RunDecision,
};

fn two_tier_topology_tiers() -> Vec<(String, Tier)> {
    vec![
        ("a".to_string(), Tier { replicasets: 2, replication_factor: 2 }),
        ("b".to_string(), Tier { replicasets: 1, replication_factor: 3 }),
    ]
}

#[test]
fn run_guard_refuses_second_whole_cluster_start() {
    let found = Some("./tmp/cluster/i1/admin.sock".to_string());
    let err = cluster_run_guard(None, false, &found).unwrap_err();
    assert!(err.msg.contains("cluster has already started, can connect via"));
    assert_eq!(
        err.msg,
        "cluster has already started, can connect via ./tmp/cluster/i1/admin.sock"
    );
}

#[test]
fn run_guard_launches_whole_cluster_over_clean_state() {
    let r = cluster_run_guard(None, false, &None).unwrap();
    assert!(matches!(r, RunDecision::LaunchAll));
}

#[test]
fn run_guard_skips_live_single_instance() {
    let name = "i2".to_string();
    let r = cluster_run_guard(Some(&name), true, &None).unwrap();
    assert!(matches!(r, RunDecision::SkippedExisting));
    let r = cluster_run_guard(Some(&name), false, &None).unwrap();
    assert!(matches!(r, RunDecision::LaunchSingle));
}

#[test]
fn instance_numbering_walks_tiers_in_declared_order() {
    let tiers = two_tier_topology_tiers();
    let assigned = assign_instances(&tiers);
    assert_eq!(assigned.len(), 7);
    for (i, (id, tier)) in assigned.iter().enumerate() {
        assert_eq!(*id as usize, i + 1);
        if i < 4 {
            assert_eq!(tier, "a");
        } else {
            assert_eq!(tier, "b");
        }
    }
}

#[test]
fn tier_recovery_matches_numbering() {
    let tiers = two_tier_topology_tiers();
    assert_eq!(tier_for_instance(&tiers, 1), "a");
    assert_eq!(tier_for_instance(&tiers, 4), "a");
    assert_eq!(tier_for_instance(&tiers, 5), "b");
    assert_eq!(tier_for_instance(&tiers, 7), "b");
    assert_eq!(tier_for_instance(&tiers, 8), "");
}

#[test]
fn instance_numbering_handles_empty_and_zero_width_tiers() {
    let empty: Vec<(String, Tier)> = vec![];
    assert!(assign_instances(&empty).is_empty());
    assert_eq!(tier_for_instance(&empty, 1), "");
    // a zero-width tier is accepted but contributes no instances
    let tiers = vec![
        ("empty".to_string(), Tier { replicasets: 0, replication_factor: 5 }),
        ("real".to_string(), Tier { replicasets: 1, replication_factor: 2 }),
    ];
    let assigned = assign_instances(&tiers);
    assert_eq!(assigned.len(), 2);
    assert!(assigned.iter().all(|(_, t)| t == "real"));
}

#[test]
fn instance_numbering_handles_a_full_tier() {
    let tiers = vec![("big".to_string(), Tier { replicasets: 15, replication_factor: 17 })];
    let assigned = assign_instances(&tiers);
    assert_eq!(assigned.len(), 255);
    assert_eq!(assigned[254].0, 255);
    assert_eq!(tier_for_instance(&tiers, 255), "big");
}

#[test]
fn instance_id_recovers_from_positional_name() {
    assert_eq!(instance_id_from_dir_name("i12").unwrap(), 12);
    let err = instance_id_from_dir_name("default_1_1").unwrap_err();
    assert_eq!(err.msg, "failed to parse instance id from directory name 'default_1_1'");
}

#[test]
fn rollback_collects_every_launched_pid() {
    let instances = vec![
        PicodataInstance {
            instance_name: "i1".to_string(),
            instance_id: 1,
            tier: "a".to_string(),
            daemon: false,
            data_dir: "./tmp/cluster/i1".to_string(),
            log_file_path: "./tmp/cluster/i1/picodata.log".to_string(),
            pg_port: 5433,
            bin_port: 3001,
            http_port: 8001,
            pid: 101,
        },
        PicodataInstance {
            instance_name: "i2".to_string(),
            instance_id: 2,
            tier: "a".to_string(),
            daemon: false,
            data_dir: "./tmp/cluster/i2".to_string(),
            log_file_path: "./tmp/cluster/i2/picodata.log".to_string(),
            pg_port: 5434,
            bin_port: 3002,
            http_port: 8002,
            pid: 102,
        },
    ];
    assert_eq!(rollback_pids(&instances), vec![101, 102]);
}

#[test]
fn run_params_builder_fills_defaults() {
    let mut b = RunParamsBuilder::default();
    b.topology(Topology::default());
    let params = b.build().unwrap();
    assert_eq!(params.data_dir, "./tmp");
    assert_eq!(params.base_bin_port, 3000);
    assert_eq!(params.base_http_port, 8000);
    assert_eq!(params.base_pg_port, 5432);
    assert_eq!(params.picodata_path, "picodata");
    assert_eq!(params.target_dir, "target");
    assert_eq!(params.plugin_path, "./");
    assert_eq!(params.config_path, "./picodata.yaml");
    assert!(!params.daemon);
    assert!(params.instance_name.is_none());
    assert!(matches!(params.get_build_profile(), BuildType::Debug));
}

#[test]
fn run_params_builder_requires_topology() {
    let b = RunParamsBuilder::default();
    let err = b.build().unwrap_err();
    assert_eq!(err.msg, "topology is not set");
}

#[test]
fn run_params_builder_keeps_set_values() {
    let mut b = RunParamsBuilder::default();
    b.topology(Topology::default())
        .daemon(true)
        .plugin_path("./tests/tmp/test-plugin".to_string())
        .base_http_port(8001)
        .use_release(true);
    let params = b.build().unwrap();
    assert!(params.daemon);
    assert!(params.use_release);
    assert_eq!(params.plugin_path, "./tests/tmp/test-plugin");
    assert_eq!(params.base_http_port, 8001);
    assert!(matches!(params.get_build_profile(), BuildType::Release));
    assert_eq!(
        params.plugins_dir(true).unwrap(),
        "./tests/tmp/test-plugin/target/release"
    );
    assert!(params.plugins_dir(false).is_none());
}

#[test]
fn web_auth_query_picks_statement_by_mode() {
    assert_eq!(pike::run::web_auth_query(true), "ALTER SYSTEM RESET jwt_secret;");
    assert_eq!(pike::run::web_auth_query(false), "ALTER SYSTEM SET jwt_secret = '';");
}

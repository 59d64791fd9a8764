use pike::cluster::{Plugin, Tier, Topology};
use pike::topology::latest_version;

#[test]
fn version_resolution_picks_lexicographic_max() {
    let names = vec!["0.1.0".to_string(), "0.2.0".to_string(), "0.10.0".to_string()];
    assert_eq!(latest_version(&names), "0.2.0");
}

#[test]
fn version_resolution_is_plain_string_order() {
    let names = vec!["9".to_string(), "10".to_string()];
    assert_eq!(latest_version(&names), "9");
    let names = vec!["1.0.0".to_string(), "1.0.0-rc1".to_string()];
    assert_eq!(latest_version(&names), "1.0.0-rc1");
}

#[test]
fn find_plugin_versions_resolves_each_plugin() {
    let mut topology = Topology {
        tiers: vec![("default".to_string(), Tier { replicasets: 1, replication_factor: 1 })],
        plugins: vec![
            ("alpha".to_string(), Plugin::default()),
            ("beta".to_string(), Plugin::default()),
        ],
        enviroment: vec![],
        pre_install_sql: vec![],
    };
    let listings = vec![
        Some(vec!["0.1.0".to_string(), "0.2.0".to_string(), "0.10.0".to_string()]),
        Some(vec!["1.0.0".to_string()]),
    ];
    topology.find_plugin_versions("./target/debug", &listings).unwrap();
    assert_eq!(topology.plugins[0].1.version.as_deref(), Some("0.2.0"));
    assert_eq!(topology.plugins[1].1.version.as_deref(), Some("1.0.0"));
}

#[test]
fn find_plugin_versions_fails_on_missing_directory() {
    let mut topology = Topology {
        tiers: vec![],
        plugins: vec![("alpha".to_string(), Plugin::default())],
        enviroment: vec![],
        pre_install_sql: vec![],
    };
    let listings = vec![None];
    let err = topology.find_plugin_versions("./target/debug", &listings).unwrap_err();
    assert_eq!(err.msg, "plugin directory ./target/debug/alpha does not exist");
}

#[test]
fn external_plugins_are_the_ones_with_paths() {
    let mut local = Plugin::default();
    assert!(!local.is_external());
    let mut topology = Topology::default();
    topology.plugins.push(("p".to_string(), local.clone()));
    assert!(!topology.has_external_plugins());
    local.path = Some("../elsewhere".to_string());
    assert!(local.is_external());
    topology.plugins.push(("q".to_string(), local));
    assert!(topology.has_external_plugins());
}

use pike::cluster::{MigrationContextVar, Plugin, Service, Tier, Topology};
use pike::installer::{build_install_statements, installer_statement_verdict};

fn sample_topology() -> Topology {
    let service = Service { tiers: vec!["default".to_string()] };
    let plugin = Plugin {
        migration_context: vec![MigrationContextVar {
            name: "name".to_string(),
            value: "value".to_string(),
        }],
        services: vec![("example_service".to_string(), service)],
        version: Some("0.1.0".to_string()),
        path: None,
    };
    Topology {
        tiers: vec![("default".to_string(), Tier { replicasets: 1, replication_factor: 2 })],
        plugins: vec![("test-plugin".to_string(), plugin)],
        enviroment: vec![],
        pre_install_sql: vec![
            "CREATE TABLE \"pre_install_check\" (\"id\" INTEGER PRIMARY KEY, \"val\" TEXT);"
                .to_string(),
        ],
    }
}

#[test]
fn install_statements_follow_activation_order() {
    let topology = sample_topology();
    let stmts = build_install_statements(&topology);
    let expected = vec![
        "CREATE TABLE \"pre_install_check\" (\"id\" INTEGER PRIMARY KEY, \"val\" TEXT);"
            .to_string(),
        "CREATE PLUGIN \"test-plugin\" 0.1.0;".to_string(),
        "ALTER PLUGIN \"test-plugin\" 0.1.0 SET migration_context.name='value';".to_string(),
        "ALTER PLUGIN \"test-plugin\" MIGRATE TO 0.1.0;".to_string(),
        "ALTER PLUGIN \"test-plugin\" 0.1.0 ADD SERVICE \"example_service\" TO TIER \"default\";"
            .to_string(),
        "ALTER PLUGIN \"test-plugin\" 0.1.0 ENABLE;".to_string(),
    ];
    assert_eq!(stmts, expected);
}

#[test]
fn install_statements_keep_plugin_order() {
    let mut topology = sample_topology();
    topology.pre_install_sql = vec![];
    let second = Plugin {
        migration_context: vec![],
        services: vec![],
        version: Some("2.0.0".to_string()),
        path: None,
    };
    topology.plugins.push(("zeta".to_string(), second));
    let stmts = build_install_statements(&topology);
    assert_eq!(stmts.len(), 5 + 3);
    assert_eq!(stmts[5], "CREATE PLUGIN \"zeta\" 2.0.0;");
    assert_eq!(stmts[6], "ALTER PLUGIN \"zeta\" MIGRATE TO 2.0.0;");
    assert_eq!(stmts[7], "ALTER PLUGIN \"zeta\" 2.0.0 ENABLE;");
}

#[test]
fn install_statements_of_an_empty_topology_are_only_the_pre_install_ones() {
    let topology = Topology {
        tiers: vec![],
        plugins: vec![],
        enviroment: vec![],
        pre_install_sql: vec!["SELECT 1;".to_string()],
    };
    assert_eq!(build_install_statements(&topology), vec!["SELECT 1;".to_string()]);
}

#[test]
fn verdict_accepts_clean_exit() {
    assert!(installer_statement_verdict("CREATE PLUGIN \"p\" 0.1.0;", 0, "", "").is_ok());
}

#[test]
fn verdict_tolerates_idempotency_phrases_on_exit_one() {
    assert!(installer_statement_verdict("q", 1, "plugin already exists", "").is_ok());
    assert!(installer_statement_verdict("q", 1, "", "service already enabled").is_ok());
}

#[test]
fn verdict_aborts_on_plain_failure() {
    let err = installer_statement_verdict("ALTER PLUGIN \"p\" MIGRATE TO 0.1.0;", 1, "boom", "")
        .unwrap_err();
    assert_eq!(err.msg, "failed to execute picodata query ALTER PLUGIN \"p\" MIGRATE TO 0.1.0;");
}

#[test]
fn verdict_aborts_on_other_exit_codes_even_with_phrases() {
    let err = installer_statement_verdict("q", 2, "already exists", "").unwrap_err();
    assert_eq!(err.msg, "failed to execute picodata query q");
}

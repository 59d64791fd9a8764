use pike::stop::{
    parse_pid, stop_instance, stop_selection, InstanceDirFacts, ParamsBuilder as StopParamsBuilder,
};

fn four_node_entries() -> Vec<(String, bool)> {
    vec![
        ("i1".to_string(), false),
        ("i2".to_string(), false),
        ("i3".to_string(), false),
        ("i4".to_string(), false),
        ("default_1_1".to_string(), true),
        ("default_1_2".to_string(), true),
        ("default_2_1".to_string(), true),
        ("default_2_2".to_string(), true),
    ]
}

#[test]
fn whole_cluster_stop_touches_symlink_entries_only() {
    let entries = four_node_entries();
    let sel = stop_selection(&entries, None).unwrap();
    assert_eq!(
        sel,
        vec!["default_1_1", "default_1_2", "default_2_1", "default_2_2"]
    );
}

#[test]
fn single_instance_stop_touches_only_the_named_entry() {
    let entries = four_node_entries();
    let name = "i2".to_string();
    let sel = stop_selection(&entries, Some(&name)).unwrap();
    assert_eq!(sel, vec!["i2"]);
    // every sibling stays untouched
    for sibling in ["i1", "i3", "i4", "default_1_1"] {
        assert!(!sel.iter().any(|s| s == sibling));
    }
}

#[test]
fn single_instance_stop_fails_for_unknown_name() {
    let entries = four_node_entries();
    let name = "i9".to_string();
    let err = stop_selection(&entries, Some(&name)).unwrap_err();
    assert_eq!(err.msg, "failed to locate directory of the instance 'i9'");
}

#[test]
fn pid_lines_parse_with_surrounding_whitespace() {
    assert_eq!(parse_pid(" 123 "), Some(123));
    assert_eq!(parse_pid("123"), Some(123));
    assert_eq!(parse_pid("abc"), None);
    assert_eq!(parse_pid(""), None);
}

#[test]
fn stop_skips_instances_whose_socket_is_gone() {
    let facts = InstanceDirFacts {
        is_dir: true,
        pid_file_exists: true,
        pid_line: Some("4242".to_string()),
        socket_active: false,
    };
    assert!(stop_instance("./tmp/cluster/default_1_1", &facts).is_ok());
}

#[test]
fn stop_requires_a_real_directory_with_a_pid_file() {
    let not_dir = InstanceDirFacts {
        is_dir: false,
        pid_file_exists: false,
        pid_line: None,
        socket_active: false,
    };
    let err = stop_instance("./tmp/cluster/default_1_1", &not_dir).unwrap_err();
    assert_eq!(err.msg, "./tmp/cluster/default_1_1 is not a directory");

    let no_pid = InstanceDirFacts {
        is_dir: true,
        pid_file_exists: false,
        pid_line: None,
        socket_active: true,
    };
    let err = stop_instance("./tmp/cluster/default_1_1", &no_pid).unwrap_err();
    assert_eq!(err.msg, "PID file does not exist in folder: ./tmp/cluster/default_1_1");

    let bad_pid = InstanceDirFacts {
        is_dir: true,
        pid_file_exists: true,
        pid_line: Some("not-a-pid".to_string()),
        socket_active: true,
    };
    let err = stop_instance("./tmp/cluster/default_1_1", &bad_pid).unwrap_err();
    assert!(err.msg.starts_with("failed to read the PID file"));
}

#[test]
fn stop_params_builder_fills_defaults() {
    let params = StopParamsBuilder::default().build();
    assert_eq!(params.data_dir, "./tmp");
    assert_eq!(params.plugin_path, "./");
    assert!(params.instance_name.is_none());

    let mut b = StopParamsBuilder::default();
    b.plugin_path("./tests/tmp/test-plugin".to_string())
        .instance_name(Some("i2".to_string()));
    let params = b.build();
    assert_eq!(params.plugin_path, "./tests/tmp/test-plugin");
    assert_eq!(params.instance_name.as_deref(), Some("i2"));
}

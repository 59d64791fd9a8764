use pike::admin::{
    get_cluster_leader_id, get_instance_current_state, get_instance_name,
    get_lua_single_line_output, parse_instance_state, run_query_in_picodata_admin,
    active_socket_path, get_cluster_dir, InstanceState, GET_CLUSTER_LEADER_ID,
    GET_INSTANCE_CURRENT_STATE, GET_INSTANCE_NAME,
};

#[test]
fn scalar_line_extraction_takes_first_marked_line() {
    let out = "picodata console\n- default_1_1\n- extra\n";
    assert_eq!(get_lua_single_line_output(out).unwrap(), "default_1_1");
}

#[test]
fn scalar_line_extraction_strips_carriage_return() {
    let out = "header\r\n- online\r\n";
    assert_eq!(get_lua_single_line_output(out).unwrap(), "online");
}

#[test]
fn scalar_line_extraction_fails_without_marker() {
    let out = "just text\nno marker here\n";
    let err = get_lua_single_line_output(out).unwrap_err();
    assert_eq!(
        err.msg,
        "unable to extract single line from Lua query output 'just text\nno marker here\n'"
    );
}

#[test]
fn instance_state_parses_ignoring_case() {
    assert!(parse_instance_state("Online").unwrap().is_online());
    assert!(!parse_instance_state("OFFLINE").unwrap().is_online());
    assert!(matches!(parse_instance_state("Expelled").unwrap(), InstanceState::Expelled));
}

#[test]
fn instance_state_rejects_unknown_variant() {
    let err = parse_instance_state("Rebooting").unwrap_err();
    assert_eq!(err.msg, "Unknown instane state variant: 'rebooting'");
}

#[test]
fn instance_name_comes_from_scalar_line() {
    assert_eq!(get_instance_name("- i3\n").unwrap(), "i3");
}

#[test]
fn instance_current_state_parses_scalar_line() {
    assert!(get_instance_current_state("- Online\n").unwrap().is_online());
    assert!(!get_instance_current_state("- Offline\n").unwrap().is_online());
    assert!(get_instance_current_state("- garbage\n").is_err());
}

#[test]
fn leader_id_parses_scalar_line() {
    assert_eq!(get_cluster_leader_id("- 42\n").unwrap(), 42);
    assert_eq!(get_cluster_leader_id("- 0\n").unwrap(), 0);
}

#[test]
fn leader_id_failure_is_wrapped() {
    let err = get_cluster_leader_id("- not-a-number\n").unwrap_err();
    assert!(err.msg.starts_with("unable to get cluster leader id: "));
    let err = get_cluster_leader_id("no marker\n").unwrap_err();
    assert!(err.msg.starts_with("unable to get cluster leader id: "));
}

#[test]
fn admin_run_outcome_splits_on_exit_status() {
    let ok = run_query_in_picodata_admin(true, "out".to_string(), "err");
    assert_eq!(ok.unwrap(), "out");
    let failed = run_query_in_picodata_admin(false, "out".to_string(), "boom");
    assert_eq!(failed.unwrap_err().msg, "failed to run query in picodata admin: boom");
}

#[test]
fn socket_paths_follow_cluster_layout() {
    assert_eq!(get_cluster_dir("./plug", "./tmp"), "./plug/./tmp/cluster");
    assert_eq!(
        active_socket_path("./tmp", "./plug", "i1"),
        "./plug/./tmp/cluster/i1/admin.sock"
    );
}

#[test]
fn console_statements_are_fixed() {
    assert_eq!(GET_INSTANCE_NAME, "\\lua\npico.instance_info().name");
    assert_eq!(GET_INSTANCE_CURRENT_STATE, "\\lua\npico.instance_info().current_state.variant");
    assert_eq!(
        GET_CLUSTER_LEADER_ID,
        "\\lua\nbox.func[\".proc_runtime_info\"]:call().raft.leader_id"
    );
}

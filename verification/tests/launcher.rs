use pike::cluster::{RunParamsBuilder, Tier, Topology};
use pike::instance::{
    addr_to_string, build_run_args, compute_env_vars, get_ipv4_from_liquid_var, launch_plan,
    lookup_env, parse_socket_addr4, picodata_cli_flags, pid_file_contents,
    positional_instance_name, readiness_outcome, CliFlagNames, PicodataInstance, SocketAddr4,
};

#[test]
fn environment_template_substitutes_instance_id() {
    let templates = vec![(
        "PICODATA_IPROTO_LISTEN".to_string(),
        "127.0.0.1:{{ instance_id | plus: 3300 }}".to_string(),
    )];
    let rendered = compute_env_vars(&templates, 1).unwrap();
    assert_eq!(rendered.len(), 1);
    assert_eq!(rendered[0].0, "PICODATA_IPROTO_LISTEN");
    assert_eq!(rendered[0].1, "127.0.0.1:3301");
}

#[test]
fn environment_template_rendering_uses_each_instance_id() {
    let templates = vec![("X".to_string(), "instance-{{ instance_id }}".to_string())];
    let rendered = compute_env_vars(&templates, 42).unwrap();
    assert_eq!(rendered[0].1, "instance-42");
}

#[test]
fn socket_addr_parsing_accepts_loopback_and_rejects_noise() {
    let a = parse_socket_addr4("127.0.0.1:3301").unwrap();
    assert_eq!((a.a, a.b, a.c, a.d, a.port), (127, 0, 0, 1, 3301));
    assert!(a.is_loopback());
    assert!(parse_socket_addr4("0.0.0.0:8000").unwrap().is_unspecified());
    assert!(parse_socket_addr4("127.0.0.1").is_none());
    assert!(parse_socket_addr4("300.0.0.1:80").is_none());
    assert!(parse_socket_addr4("1.2.3:80").is_none());
    assert!(parse_socket_addr4("1.2.3.4.5:80").is_none());
    assert!(parse_socket_addr4("1.2.3.4:99999").is_none());
    // leading zeros in octets are rejected, as the standard parser has it
    assert!(parse_socket_addr4("127.000.0.1:80").is_none());
    assert!(parse_socket_addr4("01.2.3.4:80").is_none());
    assert!(parse_socket_addr4("1.2.3.0004:80").is_none());
    // a lone zero octet is fine, and the port may carry leading zeros
    assert_eq!(parse_socket_addr4("0.0.0.0:080").unwrap().port, 80);
}

#[test]
fn addr_text_is_dotted_quad_with_port() {
    let a = SocketAddr4 { a: 127, b: 0, c: 0, d: 1, port: 3301 };
    assert_eq!(addr_to_string(&a), "127.0.0.1:3301");
}

#[test]
fn env_address_override_must_be_loopback_or_unspecified() {
    let env = vec![("PICODATA_HTTP_LISTEN".to_string(), "10.0.0.5:8000".to_string())];
    let err = get_ipv4_from_liquid_var(&env, "PICODATA_HTTP_LISTEN").unwrap_err();
    assert!(err.msg.contains("is not loopback (127.0.0.1) or unspecified (0.0.0.0)"));

    let env = vec![("PICODATA_HTTP_LISTEN".to_string(), "garbage".to_string())];
    let err = get_ipv4_from_liquid_var(&env, "PICODATA_HTTP_LISTEN").unwrap_err();
    assert!(err.msg.contains("could not parse PICODATA_HTTP_LISTEN to an ipv4 address"));

    let env = vec![];
    assert!(get_ipv4_from_liquid_var(&env, "PICODATA_HTTP_LISTEN").unwrap().is_none());

    let env = vec![("PICODATA_HTTP_LISTEN".to_string(), "0.0.0.0:18001".to_string())];
    let a = get_ipv4_from_liquid_var(&env, "PICODATA_HTTP_LISTEN").unwrap().unwrap();
    assert_eq!(a.port, 18001);
}

#[test]
fn env_lookup_finds_first_matching_name() {
    let env = vec![
        ("A".to_string(), "1".to_string()),
        ("B".to_string(), "2".to_string()),
    ];
    assert_eq!(lookup_env(&env, "B").unwrap(), "2");
    assert!(lookup_env(&env, "C").is_none());
}

#[test]
fn cli_flags_follow_binary_generation() {
    let legacy = picodata_cli_flags("picodata 24.6.1");
    assert_eq!(legacy.data_dir_flag, "--data-dir");
    assert_eq!(legacy.listen_flag, "--listen");
    let current = picodata_cli_flags("picodata 25.1.1");
    assert_eq!(current.data_dir_flag, "--instance-dir");
    assert_eq!(current.listen_flag, "--iproto-listen");
}

#[test]
fn positional_names_and_pid_files_are_plain() {
    assert_eq!(positional_instance_name(7), "i7");
    assert_eq!(pid_file_contents(1234), "1234\n");
}

#[test]
fn run_args_hold_fixed_part_and_options() {
    let flags = CliFlagNames { data_dir_flag: "--instance-dir", listen_flag: "--iproto-listen" };
    let config = "./picodata.yaml".to_string();
    let plugins = "./target/debug".to_string();
    let args = build_run_args(
        &flags,
        "./tmp/cluster/i1",
        "127.0.0.1:3001",
        "127.0.0.1:3001",
        "0.0.0.0:8001",
        "127.0.0.1:5433",
        "default",
        "{\"default\":{\"replication_factor\":2}}",
        Some(&config),
        Some(&plugins),
        None,
    );
    let expected: Vec<String> = vec![
        "run",
        "--instance-dir",
        "./tmp/cluster/i1",
        "--iproto-listen",
        "127.0.0.1:3001",
        "--peer",
        "127.0.0.1:3001",
        "--http-listen",
        "0.0.0.0:8001",
        "--pg-listen",
        "127.0.0.1:5433",
        "--tier",
        "default",
        "--config-parameter",
        "cluster.tier={\"default\":{\"replication_factor\":2}}",
        "--config",
        "./picodata.yaml",
        "--plugin-dir",
        "./target/debug",
    ]
    .into_iter()
    .map(|s| s.to_string())
    .collect();
    assert_eq!(args, expected);
}

#[test]
fn launch_plan_synthesizes_ports_from_bases() {
    let topology = Topology {
        tiers: vec![("default".to_string(), Tier { replicasets: 1, replication_factor: 2 })],
        plugins: vec![],
        enviroment: vec![],
        pre_install_sql: vec![],
    };
    let mut b = RunParamsBuilder::default();
    b.topology(topology);
    let params = b.build().unwrap();
    let plan = launch_plan(2, "default", None, &params, "picodata 25.1.1", false, "{}").unwrap();
    assert_eq!(plan.instance_name, "i2");
    assert_eq!(plan.instance_data_dir, "././tmp/cluster/i2");
    assert_eq!(plan.log_file_path, "././tmp/cluster/i2/picodata.log");
    assert_eq!(plan.bin_port, 3002);
    assert_eq!(plan.http_port, 8002);
    assert_eq!(plan.pg_port, 5434);
    assert_eq!(plan.args[0], "run");
    assert_eq!(plan.args[1], "--instance-dir");
    assert_eq!(plan.args[4], "127.0.0.1:3002");
    assert_eq!(plan.args[6], "127.0.0.1:3001");
    assert!(!plan.args.contains(&"--config".to_string()));
    assert!(!plan.args.contains(&"--log".to_string()));
}

#[test]
fn launch_plan_respects_environment_overrides() {
    let topology = Topology {
        tiers: vec![("default".to_string(), Tier { replicasets: 1, replication_factor: 1 })],
        plugins: vec![],
        enviroment: vec![(
            "PICODATA_IPROTO_LISTEN".to_string(),
            "127.0.0.1:{{ instance_id | plus: 3300 }}".to_string(),
        )],
        pre_install_sql: vec![],
    };
    let mut b = RunParamsBuilder::default();
    b.topology(topology).daemon(true);
    let params = b.build().unwrap();
    let plan = launch_plan(2, "default", None, &params, "picodata 25.1.1", false, "{}").unwrap();
    assert_eq!(plan.bin_port, 3302);
    assert_eq!(plan.args[4], "127.0.0.1:3302");
    // the peer address is always the first instance's
    assert_eq!(plan.args[6], "127.0.0.1:3301");
    // daemon mode passes the log file to the binary itself
    assert!(plan.args.contains(&"--log".to_string()));
}

#[test]
fn readiness_deadline_is_a_hard_failure() {
    let r = readiness_outcome(Some("default_1_1".to_string()), "i1");
    assert_eq!(r.unwrap(), "default_1_1");
    let err = readiness_outcome(None, "i3").unwrap_err();
    assert_eq!(err.msg, "instance i3 failed to reach Online before the readiness deadline");
}

#[test]
fn instance_handle_exposes_its_properties() {
    let inst = PicodataInstance {
        instance_name: "default_1_1".to_string(),
        instance_id: 1,
        tier: "default".to_string(),
        daemon: false,
        data_dir: "./tmp/cluster/i1".to_string(),
        log_file_path: "./tmp/cluster/i1/picodata.log".to_string(),
        pg_port: 5433,
        bin_port: 3001,
        http_port: 8001,
        pid: 4242,
    };
    assert_eq!(*inst.pg_port(), 5433);
    let props = inst.properties();
    assert_eq!(*props.bin_port, 3001);
    assert_eq!(*props.http_port, 8001);
    assert_eq!(props.instance_name, "default_1_1");
    assert_eq!(props.tier, "default");
    assert_eq!(*props.instance_id, 1);
    assert_eq!(props.data_dir, "./tmp/cluster/i1");
}

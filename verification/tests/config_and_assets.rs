use pike::build_helper::ParamsBuilder as BuildParamsBuilder;
use pike::config_apply::{
    apply_admin_socket, apply_service_config_statements, ParamsBuilder as ApplyParamsBuilder,
};

#[test]
fn service_config_statements_set_each_key() {
    let entries = vec![
        ("value".to_string(), "\"changed\"".to_string()),
        ("limit".to_string(), "10".to_string()),
    ];
    let stmts = apply_service_config_statements("test-plugin", "0.1.0", "example_service", &entries);
    assert_eq!(
        stmts,
        vec![
            "ALTER PLUGIN \"test-plugin\" 0.1.0 SET example_service.value='\"changed\"';"
                .to_string(),
            "ALTER PLUGIN \"test-plugin\" 0.1.0 SET example_service.limit='10';".to_string(),
        ]
    );
}

#[test]
fn apply_talks_to_the_first_instance() {
    assert_eq!(apply_admin_socket("./tmp"), "./tmp/cluster/i1/admin.sock");
}

#[test]
fn apply_params_builder_fills_defaults() {
    let params = ApplyParamsBuilder::default().build();
    assert_eq!(params.config_path, "plugin_config.yaml");
    assert_eq!(params.data_dir, "./tmp");
    let mut b = ApplyParamsBuilder::default();
    b.config_path("other.yaml".to_string()).data_dir("./elsewhere".to_string());
    let params = b.build();
    assert_eq!(params.config_path, "other.yaml");
    assert_eq!(params.data_dir, "./elsewhere");
}

#[test]
fn custom_assets_take_their_own_file_names() {
    let mut b = BuildParamsBuilder::default();
    b.custom_assets(&vec!["assets/logo.svg".to_string(), "README.md".to_string()]);
    let params = b.build();
    assert_eq!(
        params.custom_assets,
        vec![
            ("assets/logo.svg".to_string(), "logo.svg".to_string()),
            ("README.md".to_string(), "README.md".to_string()),
        ]
    );
}

#[test]
fn custom_assets_named_keep_their_destinations() {
    let mut b = BuildParamsBuilder::default();
    b.custom_assets(&vec!["a/b.txt".to_string()]);
    b.custom_assets_named(&vec![("c/d.txt".to_string(), "renamed.txt".to_string())]);
    let params = b.build();
    assert_eq!(
        params.custom_assets,
        vec![
            ("a/b.txt".to_string(), "b.txt".to_string()),
            ("c/d.txt".to_string(), "renamed.txt".to_string()),
        ]
    );
}

#[test]
fn custom_assets_default_to_empty() {
    let params = BuildParamsBuilder::default().build();
    assert!(params.custom_assets.is_empty());
}

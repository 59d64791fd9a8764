use pike::cluster::Plugin;
use pike::materialize::{
    get_external_plugin_path_kind, is_plugin_archive, is_plugin_dir, is_plugin_shipping_dir,
    prepare_external_plugins, ExternalPathFacts, MaterializeStep,
};
use pike::run::BuildType;
use pike::topology::PluginPathKind;

fn archive_entries() -> Vec<Vec<String>> {
    vec![
        vec!["pkg".to_string(), "0.1.0".to_string(), "manifest.yaml".to_string()],
        vec!["pkg".to_string(), "0.1.0".to_string(), "libpkg.so".to_string()],
    ]
}

fn dir_facts(kind: PluginPathKind) -> ExternalPathFacts {
    ExternalPathFacts {
        is_relative: true,
        metadata_ok: true,
        is_file: matches!(kind, PluginPathKind::ShippingArchive),
        is_dir: !matches!(kind, PluginPathKind::ShippingArchive),
        is_symlink: false,
        archive_entries: if matches!(kind, PluginPathKind::ShippingArchive) {
            Some(archive_entries())
        } else {
            None
        },
        plugin_dir: matches!(kind, PluginPathKind::CrateOrWorkspaceDirectory),
        version_dir_files: if matches!(kind, PluginPathKind::ShippingDirectory) {
            vec![vec!["manifest.yaml".to_string()]]
        } else {
            vec![]
        },
    }
}

#[test]
fn plugin_dir_needs_cargo_toml_and_a_template() {
    assert!(is_plugin_dir(true, true, true, false));
    assert!(is_plugin_dir(true, true, false, true));
    assert!(!is_plugin_dir(true, true, false, false));
    assert!(!is_plugin_dir(true, false, true, true));
    assert!(!is_plugin_dir(false, true, true, true));
}

#[test]
fn shipping_dir_needs_a_versioned_manifest() {
    assert!(is_plugin_shipping_dir(true, &vec![vec!["manifest.yaml".to_string()]]).is_ok());
    let err = is_plugin_shipping_dir(true, &vec![vec!["readme.md".to_string()]]).unwrap_err();
    assert_eq!(err.msg, "path does not match plugin dir structure");
    let err = is_plugin_shipping_dir(false, &vec![]).unwrap_err();
    assert_eq!(err.msg, "path is not a plugin shipping directory");
}

#[test]
fn archive_needs_manifest_and_library_at_depth_three() {
    assert!(is_plugin_archive(true, Some(&archive_entries())).is_ok());
    let err = is_plugin_archive(false, None).unwrap_err();
    assert_eq!(err.msg, "plugin archive path must be a file");
    let err = is_plugin_archive(true, None).unwrap_err();
    assert_eq!(err.msg, "unable to read plugin archive candidate");
    let only_lib = vec![vec!["p".to_string(), "0.1.0".to_string(), "libp.so".to_string()]];
    let err = is_plugin_archive(true, Some(&only_lib)).unwrap_err();
    assert_eq!(err.msg, "plugin archive candidate missing manifest");
    let only_manifest =
        vec![vec!["p".to_string(), "0.1.0".to_string(), "manifest.yaml".to_string()]];
    let err = is_plugin_archive(true, Some(&only_manifest)).unwrap_err();
    assert_eq!(err.msg, "plugin archive candidate missing plugin library");
    // files at the wrong depth count for nothing
    let too_shallow = vec![vec!["manifest.yaml".to_string()]];
    assert!(is_plugin_archive(true, Some(&too_shallow)).is_err());
}

#[test]
fn path_kind_classification_covers_the_three_kinds() {
    let k = get_external_plugin_path_kind(&dir_facts(PluginPathKind::ShippingArchive)).unwrap();
    assert_eq!(k, PluginPathKind::ShippingArchive);
    let k =
        get_external_plugin_path_kind(&dir_facts(PluginPathKind::CrateOrWorkspaceDirectory))
            .unwrap();
    assert_eq!(k, PluginPathKind::CrateOrWorkspaceDirectory);
    let k = get_external_plugin_path_kind(&dir_facts(PluginPathKind::ShippingDirectory)).unwrap();
    assert_eq!(k, PluginPathKind::ShippingDirectory);
}

#[test]
fn path_kind_rejects_absolute_paths_and_symlinks() {
    let mut facts = dir_facts(PluginPathKind::ShippingDirectory);
    facts.is_relative = false;
    let err = get_external_plugin_path_kind(&facts).unwrap_err();
    assert_eq!(err.msg, "external plugin path must be relative");

    let facts = ExternalPathFacts {
        is_relative: true,
        metadata_ok: true,
        is_file: false,
        is_dir: false,
        is_symlink: true,
        archive_entries: None,
        plugin_dir: false,
        version_dir_files: vec![],
    };
    let err = get_external_plugin_path_kind(&facts).unwrap_err();
    assert_eq!(err.msg, "symlink as external plugin path is not supported");

    // a symlink is rejected even when what it points at would classify:
    // its provenance is ambiguous
    let mut linked = dir_facts(PluginPathKind::ShippingArchive);
    linked.is_symlink = true;
    let err = get_external_plugin_path_kind(&linked).unwrap_err();
    assert_eq!(err.msg, "symlink as external plugin path is not supported");
}

#[test]
fn path_kind_wraps_inner_failures() {
    let mut facts = dir_facts(PluginPathKind::ShippingArchive);
    facts.archive_entries = Some(vec![]);
    let err = get_external_plugin_path_kind(&facts).unwrap_err();
    assert!(err.msg.starts_with("external plugin path is an unknown file: "));

    let mut facts = dir_facts(PluginPathKind::ShippingDirectory);
    facts.version_dir_files = vec![];
    let err = get_external_plugin_path_kind(&facts).unwrap_err();
    assert!(err.msg.starts_with("external plugin path directory has invalid structure: "));
}

#[test]
fn materialization_runs_unpack_copy_build_in_phases() {
    let mut archived = Plugin::default();
    archived.path = Some("../pkg.tar.gz".to_string());
    let mut shipped = Plugin::default();
    shipped.path = Some("../shipped".to_string());
    let mut project = Plugin::default();
    project.path = Some("../project".to_string());
    let plugins = vec![
        ("proj".to_string(), project),
        ("arch".to_string(), archived),
        ("ship".to_string(), shipped),
        ("local".to_string(), Plugin::default()),
    ];
    let kinds = vec![
        Some(PluginPathKind::CrateOrWorkspaceDirectory),
        Some(PluginPathKind::ShippingArchive),
        Some(PluginPathKind::ShippingDirectory),
        None,
    ];
    let steps = prepare_external_plugins(
        &plugins,
        &kinds,
        "./target/debug",
        BuildType::Debug,
        "target",
        false,
    );
    assert_eq!(steps.len(), 3);
    match &steps[0] {
        MaterializeStep::Unpack { src, dst } => {
            assert_eq!(src, "../pkg.tar.gz");
            assert_eq!(dst, "./target/debug");
        },
        other => panic!("expected an unpack step first, got {other:?}"),
    }
    match &steps[1] {
        MaterializeStep::CopyDir { src, dst } => {
            assert_eq!(src, "../shipped");
            assert_eq!(dst, "./target/debug");
        },
        other => panic!("expected a copy step second, got {other:?}"),
    }
    match &steps[2] {
        MaterializeStep::BuildAndCopy { project, run_build, copy_src, dst } => {
            assert_eq!(project, "../project");
            assert!(run_build);
            assert_eq!(copy_src, "../project/target/debug/proj");
            assert_eq!(dst, "./target/debug");
        },
        other => panic!("expected a build step last, got {other:?}"),
    }
}

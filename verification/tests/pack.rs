use pike::pack::{
    create_archive_path, detect_linux_os_suffix, detect_os_suffix, generate_archive_path,
    plugin_lib_name, resolve_archive_path, resolve_linux_variant, rolling_distros,
    validate_plugin_build_tree,
};

#[test]
fn resolve_archive_relative_with_ext_goes_into_build_dir() {
    let build_dir = "/tmp/build/rel";
    let dest = resolve_archive_path(
        build_dir,
        Some(&"custom.tar.gz".to_string()),
        "pkg",
        "0.1.0",
        "testos_1",
    )
    .unwrap();
    assert_eq!(dest, "/tmp/build/rel/custom.tar.gz");
}

#[test]
fn resolve_archive_relative_without_ext_appends_tar_gz() {
    let build_dir = "/tmp/build/rel";
    let dest =
        resolve_archive_path(build_dir, Some(&"custom".to_string()), "pkg", "0.1.0", "testos_1")
            .unwrap();
    assert_eq!(dest, "/tmp/build/rel/custom.tar.gz");
}

#[test]
fn resolve_archive_absolute_without_ext_appends_tar_gz() {
    let build_dir = "/tmp/build/rel";
    let dest = resolve_archive_path(
        build_dir,
        Some(&"/var/tmp/out/custom-name".to_string()),
        "pkg",
        "0.1.0",
        "testos_1",
    )
    .unwrap();
    assert_eq!(dest, "/var/tmp/out/custom-name.tar.gz");
}

#[test]
fn create_archive_path_keeps_absolute_path_with_ext() {
    let dest = create_archive_path("/tmp/build/rel", "/var/tmp/out/file.tar.gz").unwrap();
    assert_eq!(dest, "/var/tmp/out/file.tar.gz");
}

#[test]
fn create_archive_path_rejects_empty_file_name() {
    let res = create_archive_path("/tmp/build/rel", "/");
    assert!(res.is_err());
    assert!(res.unwrap_err().msg.contains("invalid archive name (no filename component)"));
}

#[test]
fn generate_archive_path_includes_suffix() {
    let p = generate_archive_path("/tmp/build/rel", "pkg", "0.1.0", "testos_9.9");
    let name = p.rsplit('/').next().unwrap();
    assert!(name.starts_with("pkg_0.1.0-") && name.ends_with(".tar.gz"));
    assert_eq!(p, "/tmp/build/rel/pkg_0.1.0-testos_9.9.tar.gz");
}

#[test]
fn validate_ok_when_all_required_files_exist() {
    let res = validate_plugin_build_tree("/b/some-plugin/0.1.0", "some_plugin", true, true, true);
    assert!(res.is_ok(), "Expected OK, got error: {res:?}");
}

#[test]
fn validate_fails_if_dir_missing() {
    let res = validate_plugin_build_tree("/b/nope/0.0.0", "nope", false, false, false);
    assert!(res.is_err(), "Expected error for missing dir");
    let msg = res.unwrap_err().msg;
    assert!(
        msg.contains("Build output directory not found"),
        "Unexpected error message: {msg}"
    );
}

#[test]
fn validate_fails_if_manifest_missing() {
    let res = validate_plugin_build_tree("/b/x-plugin/1.2.3", "x_plugin", true, true, false);
    assert!(res.is_err(), "Expected error for missing manifest");
    let msg = res.unwrap_err().msg;
    assert!(msg.contains("Missing manifest.yaml"), "Unexpected error message: {msg}");
}

#[test]
fn validate_fails_if_lib_missing() {
    let res =
        validate_plugin_build_tree("/b/another-plugin/9.9.9", "another_plugin", true, false, true);
    assert!(res.is_err(), "Expected error for missing lib");
    let msg = res.unwrap_err().msg;
    let expected_lib = plugin_lib_name("another_plugin");
    assert!(
        msg.contains("Missing plugin library") && msg.contains(&expected_lib),
        "Unexpected error message: {msg}"
    );
}

#[test]
fn os_suffix_uses_version_id() {
    let content = "NAME=\"Ubuntu\"\nID=ubuntu\nVERSION_ID=\"22.04\"\n";
    assert_eq!(detect_linux_os_suffix(content).unwrap(), "ubuntu_22.04");
}

#[test]
fn os_suffix_falls_back_to_codename() {
    let content = "ID=debian\nVERSION_CODENAME=bookworm\n";
    assert_eq!(detect_linux_os_suffix(content).unwrap(), "debian_bookworm");
}

#[test]
fn os_suffix_rolling_distro_without_version() {
    let content = "ID=arch\n";
    assert_eq!(detect_os_suffix(content).unwrap(), "arch_rolling");
}

#[test]
fn os_suffix_unknown_distro_without_version() {
    let content = "ID=slackware\n";
    assert_eq!(detect_os_suffix(content).unwrap(), "slackware_unknown");
}

#[test]
fn os_suffix_requires_id() {
    let content = "NAME=Something\nVERSION_ID=7\n";
    let res = detect_linux_os_suffix(content);
    assert!(res.is_err());
    assert_eq!(res.unwrap_err().msg, "ID not found in /etc/os-release");
}

#[test]
fn os_suffix_later_lines_win_and_comments_are_skipped() {
    let content = "# comment\nID=first\nID=second\nVERSION_ID='1 2'\n";
    // quotes are stripped, spaces become underscores, and the last ID wins
    assert_eq!(detect_linux_os_suffix(content).unwrap(), "second_1_2");
}

#[test]
fn rolling_variant_resolution() {
    let rolling = rolling_distros();
    assert_eq!(resolve_linux_variant("gentoo", &rolling), "rolling");
    assert_eq!(resolve_linux_variant("fedora", &rolling), "unknown");
}
